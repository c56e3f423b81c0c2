//! A single coloured grid position.

use vstd::prelude::*;
use crate::color::Rgb888;
use crate::geometry::Point;

verus! {

/// A position together with the colour to paint it.
#[derive(Clone, Copy, Debug, PartialEq, Eq, PartialOrd, Ord, Hash, Structural)]
pub struct Pixel(pub Point, pub Rgb888);

impl View for Pixel {
    type V = ((int, int), (int, int, int));

    open spec fn view(&self) -> ((int, int), (int, int, int)) {
        (self.0@, self.1@)
    }
}

} // verus!
