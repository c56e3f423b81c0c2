//! Faded rectangles for small displays: a filled, axis-aligned rectangle whose
//! colour darkens in discrete steps toward one of its edges, a redraw that
//! writes only what changed when the left edge moves, and quarter-turn
//! rotation of grid points.
//!
//! The library computes; it never touches a display. Drawing operations hand
//! back a [`DrawJob`], the ordered requests for a pixel sink, and the caller
//! forwards each request and reports the sink's answer.

pub mod band_iter;
pub mod canvas;
pub mod color;
pub mod draw;
pub mod faded_rectangle;
pub mod geometry;
pub mod pixel;
pub mod ramp;
pub mod rotate;
pub mod row_major;

pub use band_iter::FadedRectangleIterator;
pub use color::Rgb888;
pub use draw::{DrawJob, SinkCommand};
pub use faded_rectangle::{FadedRectangle, Fading};
pub use geometry::{Point, Rectangle, Size};
pub use pixel::Pixel;
pub use rotate::{checked_rotate_point, rotate_point, Rotation};
