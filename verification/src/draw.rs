//! Drawing as a conversation with a pixel sink.
//!
//! A sink can do two things: fill a rectangle with one colour, and paint a
//! sequence of pixels. Either may fail. The library decides what to ask for
//! and in which order, and what a failure means; making the requests is
//! left to the caller, who holds the sink:
//!
//! 1. ask the [`DrawJob`] for its pending [`SinkCommand`];
//! 2. carry it out on the sink;
//! 3. hand the sink's answer to [`DrawJob::advance`], and go on with the job
//!    it returns, or stop with the error it returns.

use vstd::prelude::*;
use crate::color::Rgb888;
use crate::faded_rectangle::FadedRectangle;
use crate::geometry::{Point, Rectangle, Size};

verus! {

/// One request to a pixel sink.
#[derive(Clone, Copy, Debug, PartialEq, Eq, Structural)]
pub enum SinkCommand {
    /// Paint every position of `area` with `color`.
    FillRect { area: Rectangle, color: Rgb888 },
    /// Paint the fade band of `source`: the pixels that `source.into_iter()`
    /// yields, in the order in which they come. A band that reaches beyond
    /// the coordinates of a `Point` cannot be walked; see
    /// [`FadedRectangle::has_band_in_range`].
    DrawPixels { source: FadedRectangle },
}

/// The requests that a drawing operation has yet to make, in order.
///
/// Its view is that sequence of requests.
#[derive(Debug)]
pub struct DrawJob {
    first: Option<SinkCommand>,
    second: Option<SinkCommand>,
}

impl View for DrawJob {
    type V = Seq<SinkCommand>;

    closed spec fn view(&self) -> Seq<SinkCommand> {
        match (self.first, self.second) {
            (Some(first), Some(second)) => seq![first, second],
            (Some(first), None) => seq![first],
            _ => Seq::empty(),
        }
    }
}

impl DrawJob {
    #[verifier::type_invariant]
    closed spec fn well_formed(self) -> bool {
        self.first is None ==> self.second is None
    }

    /// The request to make next, or `None` when the job is done.
    pub fn pending(&self) -> (command: Option<SinkCommand>)
        ensures
            self@.len() == 0 ==> command is None,
            self@.len() > 0 ==> command == Some(self@[0]),
    {
        proof {
            use_type_invariant(self);
        }
        self.first
    }

    /// Whether every request has been made.
    pub fn is_finished(&self) -> (finished: bool)
        ensures
            finished == (self@.len() == 0),
    {
        proof {
            use_type_invariant(self);
        }
        self.first.is_none()
    }

    /// Takes the sink's answer to the pending request. After a success the
    /// requests that follow remain; a failure ends the job, and the sink's
    /// error is handed back as it came.
    pub fn advance<E>(self, outcome: Result<(), E>) -> (next: Result<DrawJob, E>)
        ensures
            match outcome {
                Ok(_) => {
                    &&& next is Ok
                    &&& self@.len() > 0 ==> next->Ok_0@ == self@.skip(1)
                    &&& self@.len() == 0 ==> next->Ok_0@ == self@
                },
                Err(error) => next == Err::<DrawJob, E>(error),
            },
    {
        proof {
            use_type_invariant(&self);
        }
        match outcome {
            Ok(_) => {
                let rest = DrawJob { first: self.second, second: None };
                proof {
                    if self@.len() > 0 {
                        assert(rest@ =~= self@.skip(1));
                    }
                }
                Ok(rest)
            },
            Err(error) => Err(error),
        }
    }
}

impl FadedRectangle {
    /// The requests of a full draw: fill the rectangle with the base
    /// colour, then paint the fade band over it.
    pub open spec fn draw_commands(&self) -> Seq<SinkCommand> {
        seq![
            SinkCommand::FillRect { area: self.rect, color: self.base_color },
            SinkCommand::DrawPixels { source: *self },
        ]
    }

    /// The strip that a left edge moving right, from that of `previous` to
    /// that of this rectangle, leaves behind. It starts at row 0 and is as
    /// high as `previous`.
    pub open spec fn vacated_strip(&self, previous: Rectangle) -> Rectangle {
        Rectangle {
            top_left: Point { x: previous.top_left.x, y: 0 },
            size: Size {
                width: (self.rect.left() - previous.left()) as u32,
                height: previous.size.height,
            },
        }
    }

    /// The strip to redraw when the left edge does not move right: from the
    /// new left edge to the old one and `steps` columns further, so that
    /// the old fade band is painted over. It starts at row 0, is as high
    /// as `previous`, and fades as this rectangle does.
    pub open spec fn exposed_strip(&self, previous: Rectangle) -> FadedRectangle {
        FadedRectangle {
            rect: Rectangle {
                top_left: Point { x: self.rect.top_left.x, y: 0 },
                size: Size {
                    width: (previous.left() - self.rect.left() + self.fading.steps()) as u32,
                    height: previous.size.height,
                },
            },
            base_color: self.base_color,
            fading: self.fading,
        }
    }

    /// Whether the width of the strip to redraw fits its type.
    pub open spec fn diff_in_range(&self, previous: Rectangle) -> bool {
        self.rect != previous && self.rect.left() <= previous.left() ==> previous.left()
            - self.rect.left() + self.fading.steps() <= u32::MAX
    }

    /// The requests that bring a sink showing a faded rectangle at
    /// `previous` up to date with this one, whose left edge has moved:
    /// nothing if the rectangle is the same; if the edge moved right, black
    /// over the vacated strip and then the fade band at its new place;
    /// otherwise a full draw of the exposed strip.
    pub open spec fn diff_commands(&self, previous: Rectangle) -> Seq<SinkCommand> {
        if self.rect == previous {
            Seq::empty()
        } else if self.rect.left() > previous.left() {
            seq![
                SinkCommand::FillRect {
                    area: self.vacated_strip(previous),
                    color: Rgb888::black(),
                },
                SinkCommand::DrawPixels { source: *self },
            ]
        } else {
            self.exposed_strip(previous).draw_commands()
        }
    }

    /// Starts a full draw.
    pub fn draw(&self) -> (job: DrawJob)
        ensures
            job@ == self.draw_commands(),
    {
        let job = DrawJob {
            first: Some(SinkCommand::FillRect { area: self.rect, color: self.base_color }),
            second: Some(SinkCommand::DrawPixels { source: *self }),
        };
        assert(job@ =~= self.draw_commands());
        job
    }

    /// Tells whether [`FadedRectangle::draw_diff`] accepts `previous`.
    pub fn has_diff_in_range(&self, previous: &Rectangle) -> (in_range: bool)
        ensures
            in_range == self.diff_in_range(*previous),
    {
        if self.rect == *previous || self.rect.top_left.x > previous.top_left.x {
            true
        } else {
            previous.top_left.x as i64 - self.rect.top_left.x as i64 + self.fading.steps() as i64
                <= u32::MAX as i64
        }
    }

    /// Starts a redraw after the left edge has moved from that of
    /// `previous`.
    pub fn draw_diff(&self, previous: &Rectangle) -> (job: DrawJob)
        requires
            self.diff_in_range(*previous),
        ensures
            job@ == self.diff_commands(*previous),
    {
        if self.rect == *previous {
            let job = DrawJob { first: None, second: None };
            assert(job@ =~= self.diff_commands(*previous));
            return job;
        }
        let old_left: i64 = previous.top_left.x as i64;
        let new_left: i64 = self.rect.top_left.x as i64;
        if new_left > old_left {
            let vacated = Rectangle {
                top_left: Point { x: previous.top_left.x, y: 0 },
                size: Size { width: (new_left - old_left) as u32, height: previous.size.height },
            };
            let job = DrawJob {
                first: Some(SinkCommand::FillRect { area: vacated, color: Rgb888::black() }),
                second: Some(SinkCommand::DrawPixels { source: *self }),
            };
            assert(job@ =~= self.diff_commands(*previous));
            job
        } else {
            let width: i64 = old_left - new_left + self.fading.steps() as i64;
            let exposed = FadedRectangle {
                rect: Rectangle {
                    top_left: Point { x: self.rect.top_left.x, y: 0 },
                    size: Size { width: width as u32, height: previous.size.height },
                },
                base_color: self.base_color,
                fading: self.fading,
            };
            exposed.draw()
        }
    }
}

} // verus!
