//! The faded rectangle: a solid rectangle with a band along one edge in
//! which the colour darkens step by step.
//!
//! Positions inside the rectangle are given as offsets from its top-left
//! corner: `col` counts columns to the right, `row` counts rows down.

use vstd::prelude::*;
use crate::color::Rgb888;
use crate::geometry::{Point, Rectangle};
use crate::ramp::{
    fade_toward_end, fade_toward_start, leading_factor, lemma_leading_factor, lemma_shaded,
    lemma_trailing_factor, shade, shaded, trailing_factor, trailing_start,
};

verus! {

/// The edge toward which the colour darkens, and the width of the band in
/// pixels. With `steps` at 0 nothing fades.
#[derive(Clone, Copy, Debug, PartialEq, Eq, PartialOrd, Ord, Hash, Structural)]
pub enum Fading {
    Bottom { steps: u8 },
    Top { steps: u8 },
    Left { steps: u8 },
    Right { steps: u8 },
}

impl Fading {
    pub open spec fn spec_steps(&self) -> u8 {
        match *self {
            Fading::Bottom { steps } => steps,
            Fading::Top { steps } => steps,
            Fading::Left { steps } => steps,
            Fading::Right { steps } => steps,
        }
    }

    /// The number of steps, whatever the edge.
    #[verifier::when_used_as_spec(spec_steps)]
    pub fn steps(&self) -> (steps: u8)
        ensures
            steps == self.spec_steps(),
    {
        match self {
            Fading::Bottom { steps } => *steps,
            Fading::Top { steps } => *steps,
            Fading::Left { steps } => *steps,
            Fading::Right { steps } => *steps,
        }
    }
}

impl Default for Fading {
    fn default() -> (fading: Fading)
        ensures
            fading == (Fading::Left { steps: 5 }),
    {
        Fading::Left { steps: 5 }
    }
}

/// A rectangle, the colour of its interior, and how it fades.
#[derive(Clone, Copy, Debug, PartialEq, Eq, PartialOrd, Ord, Hash, Structural)]
pub struct FadedRectangle {
    pub rect: Rectangle,
    pub base_color: Rgb888,
    pub fading: Fading,
}

impl Default for FadedRectangle {
    fn default() -> (faded: FadedRectangle)
        ensures
            faded.rect.top_left@ == (0int, 0int),
            faded.rect.size.width == 0,
            faded.rect.size.height == 0,
            faded.base_color == Rgb888::black(),
            faded.fading == (Fading::Left { steps: 5 }),
    {
        FadedRectangle {
            rect: Rectangle::default(),
            base_color: Rgb888::black(),
            fading: Fading::default(),
        }
    }
}

/// The smaller of two integers.
pub open spec fn smaller(a: int, b: int) -> int {
    if a <= b {
        a
    } else {
        b
    }
}

impl FadedRectangle {
    pub open spec fn width(&self) -> int {
        self.rect.size.width as int
    }

    pub open spec fn height(&self) -> int {
        self.rect.size.height as int
    }

    /// Whether the offsets name a position of the rectangle.
    pub open spec fn inside(&self, col: int, row: int) -> bool {
        0 <= col < self.width() && 0 <= row < self.height()
    }

    /// The first column of the fade band.
    pub open spec fn band_left(&self) -> int {
        match self.fading {
            Fading::Right { steps } => trailing_start(steps as int, self.width()),
            _ => 0,
        }
    }

    /// The first column past the fade band.
    pub open spec fn band_right(&self) -> int {
        match self.fading {
            Fading::Left { steps } => smaller(steps as int, self.width()),
            _ => self.width(),
        }
    }

    /// The first row of the fade band.
    pub open spec fn band_top(&self) -> int {
        match self.fading {
            Fading::Bottom { steps } => trailing_start(steps as int, self.height()),
            _ => 0,
        }
    }

    /// The first row past the fade band.
    pub open spec fn band_bottom(&self) -> int {
        match self.fading {
            Fading::Top { steps } => smaller(steps as int, self.height()),
            _ => self.height(),
        }
    }

    pub open spec fn band_width(&self) -> int {
        self.band_right() - self.band_left()
    }

    pub open spec fn band_height(&self) -> int {
        self.band_bottom() - self.band_top()
    }

    /// Whether the offsets name a position of the fade band: the strip
    /// along the faded edge, `steps` wide or as wide as the rectangle lets it
    /// be.
    pub open spec fn in_band(&self, col: int, row: int) -> bool {
        &&& self.band_left() <= col < self.band_right()
        &&& self.band_top() <= row < self.band_bottom()
    }

    /// The fade factor at a position of the rectangle, from 0 (base colour)
    /// to 256 (black).
    pub open spec fn factor_at(&self, col: int, row: int) -> int {
        match self.fading {
            Fading::Left { steps } => leading_factor(steps as int, col),
            Fading::Top { steps } => leading_factor(steps as int, row),
            Fading::Right { steps } => trailing_factor(steps as int, self.width(), col),
            Fading::Bottom { steps } => trailing_factor(steps as int, self.height(), row),
        }
    }

    /// The colour at a position of the rectangle: each channel of the base
    /// colour, darkened by the fade factor.
    pub open spec fn shade_at(&self, col: int, row: int) -> (int, int, int) {
        let factor = self.factor_at(col, row);
        (
            shaded(self.base_color.r as int, factor),
            shaded(self.base_color.g as int, factor),
            shaded(self.base_color.b as int, factor),
        )
    }

    /// Whether the grid position `p` lies in the fade band.
    pub open spec fn band_covers(&self, p: (int, int)) -> bool {
        self.in_band(p.0 - self.rect.left(), p.1 - self.rect.top())
    }

    /// The colour of the faded rectangle at the grid position `p`.
    pub open spec fn shade_of(&self, p: (int, int)) -> (int, int, int) {
        self.shade_at(p.0 - self.rect.left(), p.1 - self.rect.top())
    }

    /// The grid position and colour of the pixel at the given offsets.
    pub open spec fn pixel_at(&self, col: int, row: int) -> ((int, int), (int, int, int)) {
        ((self.rect.left() + col, self.rect.top() + row), self.shade_at(col, row))
    }

    /// The pixels of the fade band in row-major order: rows from top to
    /// bottom, and in each row the columns from left to right.
    pub open spec fn band_pixels(&self) -> Seq<((int, int), (int, int, int))> {
        Seq::new(
            (self.band_width() * self.band_height()) as nat,
            |i: int|
                self.pixel_at(
                    self.band_left() + i % self.band_width(),
                    self.band_top() + i / self.band_width(),
                ),
        )
    }

    /// Whether every position of the fade band has coordinates that a
    /// `Point` can hold.
    pub open spec fn band_in_range(&self) -> bool {
        self.band_width() > 0 && self.band_height() > 0 ==> {
            &&& self.rect.left() + self.band_right() <= i32::MAX + 1
            &&& self.rect.top() + self.band_bottom() <= i32::MAX + 1
        }
    }

    pub fn new(rect: Rectangle, base_color: Rgb888, fading: Fading) -> (faded: FadedRectangle)
        ensures
            faded.rect == rect,
            faded.base_color == base_color,
            faded.fading == fading,
    {
        FadedRectangle { rect, base_color, fading }
    }

    /// The bounds of the fade band as offsets: columns `[left, right)` and
    /// rows `[top, bottom)`.
    pub fn band_bounds(&self) -> (bounds: (u32, u32, u32, u32))
        ensures
            bounds.0 == self.band_left(),
            bounds.1 == self.band_right(),
            bounds.2 == self.band_top(),
            bounds.3 == self.band_bottom(),
            bounds.0 <= bounds.1 <= self.width(),
            bounds.2 <= bounds.3 <= self.height(),
    {
        let width: u32 = self.rect.size.width;
        let height: u32 = self.rect.size.height;
        match self.fading {
            Fading::Bottom { steps } => (0, width, height.saturating_sub(steps as u32), height),
            Fading::Top { steps } => (
                0,
                width,
                0,
                if (steps as u32) < height {
                    steps as u32
                } else {
                    height
                },
            ),
            Fading::Left { steps } => (
                0,
                if (steps as u32) < width {
                    steps as u32
                } else {
                    width
                },
                0,
                height,
            ),
            Fading::Right { steps } => (width.saturating_sub(steps as u32), width, 0, height),
        }
    }

    /// Tells whether the fade band can be walked: whether each of its
    /// positions is a `Point`.
    pub fn has_band_in_range(&self) -> (in_range: bool)
        ensures
            in_range == self.band_in_range(),
    {
        let (left, right, top, bottom) = self.band_bounds();
        if left < right && top < bottom {
            let limit: i64 = 0x8000_0000;
            self.rect.top_left.x as i64 + right as i64 <= limit && self.rect.top_left.y as i64
                + bottom as i64 <= limit
        } else {
            true
        }
    }

    /// The fade factor at the given offsets inside the rectangle.
    pub fn fade_factor(&self, col: u32, row: u32) -> (factor: u16)
        requires
            self.inside(col as int, row as int),
        ensures
            factor == self.factor_at(col as int, row as int),
            factor <= 256,
    {
        match self.fading {
            Fading::Bottom { steps } => fade_toward_end(steps, self.rect.size.height, row),
            Fading::Top { steps } => fade_toward_start(steps, row),
            Fading::Left { steps } => fade_toward_start(steps, col),
            Fading::Right { steps } => fade_toward_end(steps, self.rect.size.width, col),
        }
    }

    /// The colour at the given offsets inside the rectangle.
    pub fn color_at_offset(&self, col: u32, row: u32) -> (color: Rgb888)
        requires
            self.inside(col as int, row as int),
        ensures
            color@ == self.shade_at(col as int, row as int),
    {
        let factor = self.fade_factor(col, row);
        Rgb888 {
            r: shade(self.base_color.r, factor),
            g: shade(self.base_color.g, factor),
            b: shade(self.base_color.b, factor),
        }
    }

    /// The colour at `position`, which lies inside the rectangle.
    pub fn color_at(&self, position: Point) -> (color: Rgb888)
        requires
            self.rect.covers(position@),
        ensures
            color@ == self.shade_of(position@),
    {
        let col: u32 = (position.x as i64 - self.rect.top_left.x as i64) as u32;
        let row: u32 = (position.y as i64 - self.rect.top_left.y as i64) as u32;
        self.color_at_offset(col, row)
    }
}

/// Inside the rectangle the fade band is exactly where the fade factor is
/// positive, and the factor never exceeds 256.
pub proof fn lemma_band_is_where_it_fades(faded: FadedRectangle, col: int, row: int)
    requires
        faded.inside(col, row),
    ensures
        0 <= faded.factor_at(col, row) <= 256,
        faded.in_band(col, row) <==> faded.factor_at(col, row) > 0,
{
    match faded.fading {
        Fading::Left { steps } => lemma_leading_factor(steps as int, col),
        Fading::Top { steps } => lemma_leading_factor(steps as int, row),
        Fading::Right { steps } => lemma_trailing_factor(steps as int, faded.width(), col),
        Fading::Bottom { steps } => lemma_trailing_factor(steps as int, faded.height(), row),
    }
}

/// Outside the fade band a position of the rectangle has the base colour.
pub proof fn lemma_base_color_outside_band(faded: FadedRectangle, col: int, row: int)
    requires
        faded.inside(col, row),
        !faded.in_band(col, row),
    ensures
        faded.shade_at(col, row) == faded.base_color@,
{
    lemma_band_is_where_it_fades(faded, col, row);
    lemma_shaded(faded.base_color.r as int, 0);
    lemma_shaded(faded.base_color.g as int, 0);
    lemma_shaded(faded.base_color.b as int, 0);
}

/// The darkest position of the band is black: the column or row that
/// touches the edge for `Left` and `Top`, the last column or row for `Right`
/// and `Bottom`, where the band is no wider than the rectangle.
pub proof fn lemma_dark_edge_is_black(faded: FadedRectangle, col: int, row: int)
    requires
        faded.inside(col, row),
        faded.fading.steps() >= 1,
        match faded.fading {
            Fading::Left { steps } => col == 0,
            Fading::Top { steps } => row == 0,
            Fading::Right { steps } => col == faded.width() - 1 && steps <= faded.width(),
            Fading::Bottom { steps } => row == faded.height() - 1 && steps <= faded.height(),
        },
    ensures
        faded.factor_at(col, row) == 256,
        faded.shade_at(col, row) == (0int, 0int, 0int),
{
    match faded.fading {
        Fading::Left { steps } => lemma_leading_factor(steps as int, col),
        Fading::Top { steps } => lemma_leading_factor(steps as int, row),
        Fading::Right { steps } => lemma_trailing_factor(steps as int, faded.width(), col),
        Fading::Bottom { steps } => lemma_trailing_factor(steps as int, faded.height(), row),
    }
    lemma_shaded(faded.base_color.r as int, 256);
    lemma_shaded(faded.base_color.g as int, 256);
    lemma_shaded(faded.base_color.b as int, 256);
}

} // verus!
