use bytes::Bytes;
use std::sync::Arc;
use vstd::prelude::*;
use vstd::std_specs::cmp::PartialEqSpecImpl;

verus! {

/// What an image is found by: the identifier of a cover, or a URL.
#[derive(Debug)]
pub enum ImageRef {
    Cover(String),
    Url(String),
}

/// Two references name the same image: the same kind and the same text.
pub open spec fn same_image(a: ImageRef, b: ImageRef) -> bool {
    match (a, b) {
        (ImageRef::Cover(x), ImageRef::Cover(y)) => x@ == y@,
        (ImageRef::Url(x), ImageRef::Url(y)) => x@ == y@,
        _ => false,
    }
}

impl Clone for ImageRef {
    fn clone(&self) -> (r: Self)
        ensures
            r == *self,
    {
        match self {
            ImageRef::Cover(id) => ImageRef::Cover(id.clone()),
            ImageRef::Url(url) => ImageRef::Url(url.clone()),
        }
    }
}

impl PartialEq for ImageRef {
    fn eq(&self, other: &Self) -> (r: bool) {
        match (self, other) {
            (ImageRef::Cover(x), ImageRef::Cover(y)) => *x == *y,
            (ImageRef::Url(x), ImageRef::Url(y)) => *x == *y,
            _ => false,
        }
    }
}

impl PartialEqSpecImpl for ImageRef {
    open spec fn obeys_eq_spec() -> bool {
        true
    }

    open spec fn eq_spec(&self, other: &Self) -> bool {
        same_image(*self, *other)
    }
}

impl Eq for ImageRef {

}

/// An image that a widget shows: what it is found by, and its bytes once they are there.
#[derive(Clone)]
pub struct NetImageState {
    pub image_ref: ImageRef,
    pub data: Option<Arc<Bytes>>,
}

/// The news that the bytes of an image arrived.
pub struct ImageLoadFinished {
    pub image_ref: ImageRef,
    pub data: Arc<Bytes>,
}

impl NetImageState {
    /// The state of a widget that is to show the cover `id`, before its bytes are there.
    pub fn cover(id: &str) -> (r: NetImageState)
        ensures
            r.image_ref matches ImageRef::Cover(text) && text@ == id@,
            r.data is None,
    {
        NetImageState { image_ref: ImageRef::Cover(id.to_owned()), data: None }
    }

    /// Whether the widget has to ask for its image anew after its state changed from `old`
    /// to `new`: it has when the image is another one.
    pub fn needs_request(old_data: &NetImageState, new_data: &NetImageState) -> (r: bool)
        ensures
            r == !same_image(old_data.image_ref, new_data.image_ref),
    {
        old_data.image_ref != new_data.image_ref
    }

    /// Takes the bytes of an image that arrived, if they are those of the image that the
    /// widget shows; bytes of another image are left aside. Says whether they were taken.
    pub fn accept(&mut self, loaded: &ImageLoadFinished) -> (r: bool)
        ensures
            r == same_image(old(self).image_ref, loaded.image_ref),
            final(self).image_ref == old(self).image_ref,
            final(self).data == if r {
                Some(loaded.data)
            } else {
                old(self).data
            },
    {
        if self.image_ref == loaded.image_ref {
            self.data = Some(loaded.data.clone());
            true
        } else {
            false
        }
    }
}

} // verus!
