//! Walking the fade band one pixel at a time, without storing it.

use vstd::prelude::*;
use crate::faded_rectangle::FadedRectangle;
use crate::geometry::Point;
use crate::pixel::Pixel;
use crate::row_major::lemma_row_major_index;

verus! {

/// A cursor over the pixels of a fade band, in row-major order.
///
/// Its view is the sequence of pixels it has yet to yield.
pub struct FadedRectangleIterator {
    source: FadedRectangle,
    /// Offsets of the next pixel, while `row` is above the band's bottom.
    col: u32,
    row: u32,
}

impl View for FadedRectangleIterator {
    type V = Seq<((int, int), (int, int, int))>;

    closed spec fn view(&self) -> Seq<((int, int), (int, int, int))> {
        self.source.band_pixels().skip(self.yielded())
    }
}

impl FadedRectangleIterator {
    #[verifier::type_invariant]
    closed spec fn well_formed(self) -> bool {
        &&& self.source.band_in_range()
        &&& self.source.band_left() <= self.col
        &&& self.source.band_top() <= self.row <= self.source.band_bottom()
        &&& self.row < self.source.band_bottom() ==> self.col < self.source.band_right()
    }

    /// How many pixels have been yielded.
    closed spec fn yielded(&self) -> int {
        if self.row >= self.source.band_bottom() {
            self.source.band_width() * self.source.band_height()
        } else {
            (self.row - self.source.band_top()) * self.source.band_width() + (self.col
                - self.source.band_left())
        }
    }

    /// The faded rectangle whose band is walked.
    pub closed spec fn source(&self) -> FadedRectangle {
        self.source
    }

    /// Yields the next pixel of the band, or `None` once every pixel has
    /// been yielded.
    pub fn next(&mut self) -> (next: Option<Pixel>)
        ensures
            final(self).source() == old(self).source(),
            match next {
                Some(pixel) => {
                    &&& old(self)@.len() > 0
                    &&& pixel@ == old(self)@[0]
                    &&& final(self)@ == old(self)@.skip(1)
                },
                None => old(self)@.len() == 0 && final(self)@ == old(self)@,
            },
    {
        proof {
            use_type_invariant(&*self);
        }
        let (left, right, top, bottom) = self.source.band_bounds();
        if self.row >= bottom {
            return None;
        }
        let col: u32 = self.col;
        let row: u32 = self.row;
        let ghost width = self.source.band_width();
        let ghost height = self.source.band_height();
        let ghost index = self.yielded();
        let ghost band = self.source.band_pixels();
        proof {
            lemma_row_major_index(width, height, row - top, col - left);
            assert(band[index] == self.source.pixel_at(col as int, row as int));
        }
        let color = self.source.color_at_offset(col, row);
        let point = Point {
            x: (self.source.rect.top_left.x as i64 + col as i64) as i32,
            y: (self.source.rect.top_left.y as i64 + row as i64) as i32,
        };
        if col + 1 < right {
            self.col = col + 1;
        } else {
            self.col = left;
            self.row = row + 1;
        }
        proof {
            if col + 1 >= right {
                assert((row + 1 - top) * width == (row - top) * width + width
                    && width * height == height * width) by (nonlinear_arith);
            }
            assert(self.yielded() == index + 1);
            assert(band.skip(index + 1) =~= band.skip(index).skip(1));
        }
        Some(Pixel(point, color))
    }
}

impl FadedRectangle {
    /// A cursor at the first pixel of the fade band.
    pub fn into_iter(self) -> (pixels: FadedRectangleIterator)
        requires
            self.band_in_range(),
        ensures
            pixels.source() == self,
            pixels@ == self.band_pixels(),
    {
        let (left, right, top, bottom) = self.band_bounds();
        let row: u32 = if left < right {
            top
        } else {
            bottom
        };
        let pixels = FadedRectangleIterator { source: self, col: left, row };
        proof {
            if left == right || top == bottom {
                assert(self.band_width() * self.band_height() == 0) by (nonlinear_arith)
                    requires
                        self.band_width() == 0 || self.band_height() == 0,
                ;
            }
            assert(pixels.yielded() == 0);
            assert(self.band_pixels().skip(0) =~= self.band_pixels());
        }
        pixels
    }
}

} // verus!
