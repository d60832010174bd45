use vstd::prelude::*;

verus! {

/// Wraps a source of items and calls `signal`, once, when the source first turns out to be
/// empty.
#[derive(Clone)]
pub struct DoneCallback<I, F> {
    input: I,
    signal: F,
    signal_sent: bool,
}

impl<I, F> DoneCallback<I, F> {
    /// The source that is wrapped.
    pub closed spec fn source(&self) -> I {
        self.input
    }

    /// What is called when the source is empty.
    pub closed spec fn callback(&self) -> F {
        self.signal
    }

    /// Whether the call was made.
    pub closed spec fn fired(&self) -> bool {
        self.signal_sent
    }

    pub fn new(input: I, signal: F) -> (r: DoneCallback<I, F>)
        ensures
            r.source() == input,
            r.callback() == signal,
            !r.fired(),
    {
        DoneCallback { input, signal, signal_sent: false }
    }

    /// Returns a reference to the inner source.
    pub fn inner(&self) -> (r: &I)
        ensures
            *r == self.source(),
    {
        &self.input
    }

    /// Returns a mutable reference to the inner source.
    pub fn inner_mut(&mut self) -> (r: &mut I)
        ensures
            *r == old(self).source(),
            final(self).source() == *final(r),
            final(self).callback() == old(self).callback(),
            final(self).fired() == old(self).fired(),
    {
        &mut self.input
    }

    /// Returns the inner source.
    pub fn into_inner(self) -> (r: I)
        ensures
            r == self.source(),
    {
        self.input
    }

    /// Takes note of what the source gave when it was asked for its next item, and says
    /// whether the call is due: it is when the source gave nothing for the first time.
    pub fn note_next<T>(&mut self, next: &Option<T>) -> (due: bool)
        ensures
            due == (!old(self).fired() && *next is None),
            final(self).fired() == (old(self).fired() || *next is None),
            final(self).source() == old(self).source(),
            final(self).callback() == old(self).callback(),
    {
        if !self.signal_sent && next.is_none() {
            self.signal_sent = true;
            true
        } else {
            false
        }
    }

    /// Passes on what the source gave when it was asked for its next item, and makes the
    /// call if it is due: what the callback ensures then holds.
    pub fn pass_next<T>(&mut self, next: Option<T>) -> (r: Option<T>) where F: Fn(())
        requires
            old(self).callback().requires(((),)),
        ensures
            r == next,
            !old(self).fired() && next is None ==> old(self).callback().ensures(((),), ()),
            final(self).fired() == (old(self).fired() || next is None),
            final(self).source() == old(self).source(),
            final(self).callback() == old(self).callback(),
    {
        if self.note_next(&next) {
            (self.signal)(());
        }
        next
    }
}

} // verus!
