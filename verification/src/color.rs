//! Linear RGB colour with eight bits per channel.

use vstd::prelude::*;

verus! {

/// A colour as red, green and blue channels.
#[derive(Clone, Copy, Debug, PartialEq, Eq, PartialOrd, Ord, Hash, Structural)]
pub struct Rgb888 {
    pub r: u8,
    pub g: u8,
    pub b: u8,
}

impl View for Rgb888 {
    type V = (int, int, int);

    open spec fn view(&self) -> (int, int, int) {
        (self.r as int, self.g as int, self.b as int)
    }
}

impl Rgb888 {
    /// Black: every channel at zero.
    pub open spec fn spec_black() -> Rgb888 {
        Rgb888 { r: 0, g: 0, b: 0 }
    }

    #[verifier::when_used_as_spec(spec_black)]
    pub fn black() -> (c: Rgb888)
        ensures
            c == Rgb888::spec_black(),
    {
        Rgb888 { r: 0, g: 0, b: 0 }
    }

    pub fn new(r: u8, g: u8, b: u8) -> (c: Rgb888)
        ensures
            c@ == (r as int, g as int, b as int),
    {
        Rgb888 { r, g, b }
    }

    pub fn r(&self) -> (v: u8)
        ensures
            v == self.r,
    {
        self.r
    }

    pub fn g(&self) -> (v: u8)
        ensures
            v == self.g,
    {
        self.g
    }

    pub fn b(&self) -> (v: u8)
        ensures
            v == self.b,
    {
        self.b
    }
}

impl Default for Rgb888 {
    fn default() -> (c: Rgb888)
        ensures
            c@ == (0int, 0int, 0int),
    {
        Rgb888 { r: 0, g: 0, b: 0 }
    }
}

} // verus!
