use vstd::prelude::*;

verus! {

/// The smallest object that the front end can show: one message.
pub struct Simple {
    message: String,
}

impl Simple {
    /// The message that was set last.
    pub closed spec fn stored(&self) -> Seq<char> {
        self.message@
    }

    pub fn new() -> (r: Simple)
        ensures
            r.stored() == Seq::<char>::empty(),
    {
        Simple { message: String::new() }
    }

    /// The message that is shown: a greeting, whatever was set.
    pub fn message(&self) -> (r: &'static str)
        ensures
            r@ == "Hello World!"@,
    {
        "Hello World!"
    }

    /// Stores a message. The front end is to be told, every time, that the message changed.
    pub fn set_message(&mut self, value: String)
        ensures
            final(self).stored() == value@,
    {
        self.message = value;
    }
}

} // verus!
