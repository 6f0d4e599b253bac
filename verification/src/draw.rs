//! Text on its way to the screen.

use vstd::prelude::*;

verus! {

/// A piece of text to draw, borrowed from its owner.
#[derive(Clone, Copy, Debug)]
pub struct DrawBuffer<'a> {
    buf: &'a str,
}

impl<'a> View for DrawBuffer<'a> {
    type V = Seq<char>;

    closed spec fn view(&self) -> Seq<char> {
        self.buf@
    }
}

impl<'a> DrawBuffer<'a> {
    pub fn new(buf: &'a str) -> (d: Self)
        ensures
            d@ == buf@,
    {
        DrawBuffer { buf }
    }

    /// The text.
    pub fn as_str(&self) -> (s: &'a str)
        ensures
            s@ == self@,
    {
        self.buf
    }
}

impl<'a> From<&'a str> for DrawBuffer<'a> {
    fn from(buf: &'a str) -> (d: Self)
        ensures
            d@ == buf@,
    {
        DrawBuffer { buf }
    }
}

impl<'a> vstd::std_specs::convert::FromSpecImpl<&'a str> for DrawBuffer<'a> {
    open spec fn obeys_from_spec() -> bool {
        true
    }

    closed spec fn from_spec(buf: &'a str) -> Self {
        DrawBuffer { buf }
    }
}

} // verus!
