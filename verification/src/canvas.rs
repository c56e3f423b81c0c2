//! What a sink shows after it has carried out requests.
//!
//! A canvas maps each grid position that has been painted to its colour.
//! It is unbounded: a real sink shows the part of it that lies inside its
//! own bounds. Filling paints every position of the area; a sequence of
//! pixels is painted one by one, so that of two pixels at one position the
//! later one stays.

use vstd::prelude::*;
use crate::color::Rgb888;
use crate::draw::SinkCommand;
use crate::faded_rectangle::{lemma_base_color_outside_band, FadedRectangle, Fading};
use crate::geometry::Rectangle;
use crate::row_major::{lemma_row_major_cell, lemma_row_major_index};

verus! {

/// The canvas after `area` has been filled with `color`.
pub open spec fn filled(
    canvas: Map<(int, int), (int, int, int)>,
    area: Rectangle,
    color: (int, int, int),
) -> Map<(int, int), (int, int, int)> {
    Map::new(
        |p: (int, int)| canvas.dom().contains(p) || area.covers(p),
        |p: (int, int)|
            if area.covers(p) {
                color
            } else {
                canvas[p]
            },
    )
}

/// The canvas after the pixels have been painted in order.
pub open spec fn plotted(
    canvas: Map<(int, int), (int, int, int)>,
    pixels: Seq<((int, int), (int, int, int))>,
) -> Map<(int, int), (int, int, int)>
    decreases pixels.len(),
{
    if pixels.len() == 0 {
        canvas
    } else {
        plotted(canvas, pixels.drop_last()).insert(pixels.last().0, pixels.last().1)
    }
}

/// The canvas after one request has been carried out.
pub open spec fn performed(
    canvas: Map<(int, int), (int, int, int)>,
    command: SinkCommand,
) -> Map<(int, int), (int, int, int)> {
    match command {
        SinkCommand::FillRect { area, color } => filled(canvas, area, color@),
        SinkCommand::DrawPixels { source } => plotted(canvas, source.band_pixels()),
    }
}

/// The canvas after the requests have been carried out in order.
pub open spec fn performed_all(
    canvas: Map<(int, int), (int, int, int)>,
    commands: Seq<SinkCommand>,
) -> Map<(int, int), (int, int, int)>
    decreases commands.len(),
{
    if commands.len() == 0 {
        canvas
    } else {
        performed(performed_all(canvas, commands.drop_last()), commands.last())
    }
}

impl FadedRectangle {
    /// The canvas with the faded rectangle on it: every position of the
    /// rectangle in its ramp colour, everything else as it was.
    pub open spec fn image_on(&self, canvas: Map<(int, int), (int, int, int)>) -> Map<
        (int, int),
        (int, int, int),
    > {
        Map::new(
            |p: (int, int)| canvas.dom().contains(p) || self.rect.covers(p),
            |p: (int, int)|
                if self.rect.covers(p) {
                    self.shade_of(p)
                } else {
                    canvas[p]
                },
        )
    }

    /// The row-major index of a band position.
    spec fn band_index(&self, p: (int, int)) -> int {
        (p.1 - self.rect.top() - self.band_top()) * self.band_width() + (p.0 - self.rect.left()
            - self.band_left())
    }

    /// The canvas with the first `count` pixels of the band on it.
    spec fn band_prefix_on(&self, canvas: Map<(int, int), (int, int, int)>, count: int) -> Map<
        (int, int),
        (int, int, int),
    > {
        Map::new(
            |p: (int, int)|
                canvas.dom().contains(p) || (self.band_covers(p) && self.band_index(p) < count),
            |p: (int, int)|
                if self.band_covers(p) && self.band_index(p) < count {
                    self.shade_of(p)
                } else {
                    canvas[p]
                },
        )
    }

    /// The canvas with the whole band on it: every position of the band in
    /// its ramp colour, everything else as it was.
    pub open spec fn band_on(&self, canvas: Map<(int, int), (int, int, int)>) -> Map<
        (int, int),
        (int, int, int),
    > {
        Map::new(
            |p: (int, int)| canvas.dom().contains(p) || self.band_covers(p),
            |p: (int, int)|
                if self.band_covers(p) {
                    self.shade_of(p)
                } else {
                    canvas[p]
                },
        )
    }
}

/// The fade band lies inside the rectangle.
pub proof fn lemma_band_inside_rectangle(faded: FadedRectangle, p: (int, int))
    requires
        faded.band_covers(p),
    ensures
        faded.rect.covers(p),
{
}

/// Painting the first `count` pixels of the band, in order, puts exactly
/// the band positions with an index below `count` on the canvas.
proof fn lemma_plot_band_prefix(
    faded: FadedRectangle,
    canvas: Map<(int, int), (int, int, int)>,
    count: int,
)
    requires
        0 <= count <= faded.band_pixels().len(),
    ensures
        plotted(canvas, faded.band_pixels().take(count)) == faded.band_prefix_on(canvas, count),
    decreases count,
{
    let band = faded.band_pixels();
    let width = faded.band_width();
    let height = faded.band_height();
    if count == 0 {
        assert forall|p: (int, int)| faded.band_covers(p) implies faded.band_index(p) >= 0 by {
            lemma_row_major_index(
                width,
                height,
                p.1 - faded.rect.top() - faded.band_top(),
                p.0 - faded.rect.left() - faded.band_left(),
            );
        }
        assert(faded.band_prefix_on(canvas, 0) =~= canvas);
    } else {
        let last = count - 1;
        lemma_plot_band_prefix(faded, canvas, last);
        assert(band.take(count).drop_last() =~= band.take(last));
        assert(band.take(count).last() == band[last]);
        assert(width > 0) by (nonlinear_arith)
            requires
                0 <= last < width * height,
                0 <= width,
        ;
        lemma_row_major_cell(width, height, last);
        let cell = band[last].0;
        assert(faded.band_covers(cell) && faded.band_index(cell) == last && band[last].1
            == faded.shade_of(cell));
        assert forall|p: (int, int)| faded.band_covers(p) && faded.band_index(p) == last implies p
            == cell by {
            lemma_row_major_index(
                width,
                height,
                p.1 - faded.rect.top() - faded.band_top(),
                p.0 - faded.rect.left() - faded.band_left(),
            );
        }
        assert(faded.band_prefix_on(canvas, last).insert(cell, band[last].1)
            =~= faded.band_prefix_on(canvas, count));
    }
}

/// Painting the band's pixels in order puts the band on the canvas.
pub proof fn lemma_plot_band(faded: FadedRectangle, canvas: Map<(int, int), (int, int, int)>)
    ensures
        plotted(canvas, faded.band_pixels()) == faded.band_on(canvas),
{
    let band = faded.band_pixels();
    lemma_plot_band_prefix(faded, canvas, band.len() as int);
    assert(band.take(band.len() as int) =~= band);
    assert forall|p: (int, int)| faded.band_covers(p) implies faded.band_index(p)
        < band.len() by {
        lemma_row_major_index(
            faded.band_width(),
            faded.band_height(),
            p.1 - faded.rect.top() - faded.band_top(),
            p.0 - faded.rect.left() - faded.band_left(),
        );
    }
    assert(faded.band_prefix_on(canvas, band.len() as int) =~= faded.band_on(canvas));
}

/// A full draw puts the faded rectangle on the canvas: afterwards every
/// position of the rectangle has its ramp colour, and nothing else has
/// changed.
pub proof fn lemma_draw_paints_image(
    faded: FadedRectangle,
    canvas: Map<(int, int), (int, int, int)>,
)
    ensures
        performed_all(canvas, faded.draw_commands()) == faded.image_on(canvas),
{
    let commands = faded.draw_commands();
    let fill = SinkCommand::FillRect { area: faded.rect, color: faded.base_color };
    let band = SinkCommand::DrawPixels { source: faded };
    assert(commands.drop_last() =~= seq![fill]);
    assert(seq![fill].drop_last() =~= Seq::<SinkCommand>::empty());
    assert(performed_all(canvas, Seq::<SinkCommand>::empty()) == canvas);
    assert(performed_all(canvas, seq![fill]) == performed(canvas, fill));
    assert(performed_all(canvas, commands) == performed(performed(canvas, fill), band));
    let base = filled(canvas, faded.rect, faded.base_color@);
    lemma_plot_band(faded, base);
    assert forall|p: (int, int)| faded.rect.covers(p) && !faded.band_covers(p) implies
        faded.shade_of(p) == faded.base_color@ by {
        lemma_base_color_outside_band(faded, p.0 - faded.rect.left(), p.1 - faded.rect.top());
    }
    assert(faded.band_on(base) =~= faded.image_on(canvas));
}

/// Every position of the rectangle outside the fade band shows exactly the
/// base colour after a full draw.
pub proof fn lemma_interior_keeps_base_color(
    faded: FadedRectangle,
    canvas: Map<(int, int), (int, int, int)>,
    p: (int, int),
)
    requires
        faded.rect.covers(p),
        !faded.band_covers(p),
    ensures
        performed_all(canvas, faded.draw_commands()).dom().contains(p),
        performed_all(canvas, faded.draw_commands())[p] == faded.base_color@,
{
    lemma_draw_paints_image(faded, canvas);
    lemma_base_color_outside_band(faded, p.0 - faded.rect.left(), p.1 - faded.rect.top());
}

/// On a blank canvas a full draw paints the grid positions of the
/// rectangle, all of them and no others.
pub proof fn lemma_draw_covers_rectangle(faded: FadedRectangle)
    ensures
        performed_all(Map::empty(), faded.draw_commands()).dom() == faded.rect.points(),
{
    lemma_draw_paints_image(faded, Map::empty());
    assert(faded.image_on(Map::empty()).dom() =~= faded.rect.points());
}

/// Drawing the same faded rectangle a second time changes nothing.
pub proof fn lemma_draw_is_idempotent(
    faded: FadedRectangle,
    canvas: Map<(int, int), (int, int, int)>,
)
    ensures
        performed_all(performed_all(canvas, faded.draw_commands()), faded.draw_commands())
            == performed_all(canvas, faded.draw_commands()),
{
    lemma_draw_paints_image(faded, canvas);
    lemma_draw_paints_image(faded, faded.image_on(canvas));
    assert(faded.image_on(faded.image_on(canvas)) =~= faded.image_on(canvas));
}

/// A full draw of an empty rectangle leaves the canvas as it was.
pub proof fn lemma_empty_rectangle_draws_nothing(
    faded: FadedRectangle,
    canvas: Map<(int, int), (int, int, int)>,
)
    requires
        faded.rect.is_empty(),
    ensures
        faded.band_pixels().len() == 0,
        performed_all(canvas, faded.draw_commands()) == canvas,
{
    lemma_draw_paints_image(faded, canvas);
    assert(faded.image_on(canvas) =~= canvas);
    assert(faded.band_width() * faded.band_height() == 0) by (nonlinear_arith)
        requires
            faded.band_width() == 0 || faded.band_height() == 0,
    ;
}

/// With no steps there is no fade band, and a full draw only fills.
pub proof fn lemma_no_steps_only_fill(
    faded: FadedRectangle,
    canvas: Map<(int, int), (int, int, int)>,
)
    requires
        faded.fading.steps() == 0,
    ensures
        faded.band_pixels().len() == 0,
        performed_all(canvas, faded.draw_commands()) == filled(
            canvas,
            faded.rect,
            faded.base_color@,
        ),
{
    lemma_draw_paints_image(faded, canvas);
    assert forall|p: (int, int)| faded.rect.covers(p) implies faded.shade_of(p)
        == faded.base_color@ by {
        lemma_base_color_outside_band(faded, p.0 - faded.rect.left(), p.1 - faded.rect.top());
    }
    assert(faded.image_on(canvas) =~= filled(canvas, faded.rect, faded.base_color@));
    assert(faded.band_width() * faded.band_height() == 0) by (nonlinear_arith)
        requires
            faded.band_width() == 0 || faded.band_height() == 0,
    ;
}

/// With at least as many steps as the rectangle is wide, for a fade to the
/// left or right, or high, for a fade to the top or bottom, the fade band
/// is the whole rectangle.
pub proof fn lemma_wide_band_covers_rectangle(faded: FadedRectangle, p: (int, int))
    requires
        match faded.fading {
            Fading::Left { steps } => steps >= faded.width(),
            Fading::Right { steps } => steps >= faded.width(),
            Fading::Top { steps } => steps >= faded.height(),
            Fading::Bottom { steps } => steps >= faded.height(),
        },
    ensures
        faded.band_covers(p) <==> faded.rect.covers(p),
{
}

/// What a redraw leaves on the canvas: nothing new if the rectangle is the
/// same; if the left edge moved right, the vacated strip in black and the
/// fade band at its new place; otherwise the exposed strip as a faded
/// rectangle of its own.
pub proof fn lemma_draw_diff_paints(
    faded: FadedRectangle,
    previous: Rectangle,
    canvas: Map<(int, int), (int, int, int)>,
)
    ensures
        performed_all(canvas, faded.diff_commands(previous)) == if faded.rect == previous {
            canvas
        } else if faded.rect.left() > previous.left() {
            faded.band_on(filled(canvas, faded.vacated_strip(previous), Rgb888::black()@))
        } else {
            faded.exposed_strip(previous).image_on(canvas)
        },
{
    let commands = faded.diff_commands(previous);
    if faded.rect == previous {
    } else if faded.rect.left() > previous.left() {
        let erase = SinkCommand::FillRect {
            area: faded.vacated_strip(previous),
            color: Rgb888::black(),
        };
        let band = SinkCommand::DrawPixels { source: faded };
        assert(commands.drop_last() =~= seq![erase]);
        assert(seq![erase].drop_last() =~= Seq::<SinkCommand>::empty());
        assert(performed_all(canvas, Seq::<SinkCommand>::empty()) == canvas);
        assert(performed_all(canvas, seq![erase]) == performed(canvas, erase));
        assert(performed_all(canvas, commands) == performed(performed(canvas, erase), band));
        lemma_plot_band(faded, performed(canvas, erase));
    } else {
        lemma_draw_paints_image(faded.exposed_strip(previous), canvas);
    }
}

/// A redraw after the left edge moved right is as good as a fresh start.
///
/// Take a canvas that shows a left-faded rectangle at `previous`, flush
/// with row 0. Let the new rectangle share its top, height and right edge,
/// with the left edge further right. Then the redraw leaves what blacking
/// out all of `previous` and drawing the new rectangle in full would
/// leave.
pub proof fn lemma_shrinking_redraw_matches_full_draw(
    faded: FadedRectangle,
    previous: Rectangle,
    canvas: Map<(int, int), (int, int, int)>,
)
    requires
        faded.fading is Left,
        previous.top_left.y == 0,
        faded.rect.top_left.y == 0,
        previous.size.height == faded.rect.size.height,
        previous.right() == faded.rect.right(),
        previous.left() < faded.rect.left(),
    ensures
        performed_all(
            (FadedRectangle {
                rect: previous,
                base_color: faded.base_color,
                fading: faded.fading,
            }).image_on(canvas),
            faded.diff_commands(previous),
        ) == faded.image_on(filled(canvas, previous, Rgb888::black()@)),
{
    let before = FadedRectangle {
        rect: previous,
        base_color: faded.base_color,
        fading: faded.fading,
    };
    let shown = before.image_on(canvas);
    lemma_draw_diff_paints(faded, previous, shown);
    let erased = filled(shown, faded.vacated_strip(previous), Rgb888::black()@);
    assert forall|p: (int, int)| faded.rect.covers(p) && !faded.band_covers(p) implies erased[p]
        == faded.shade_of(p) by {
        lemma_base_color_outside_band(faded, p.0 - faded.rect.left(), p.1 - faded.rect.top());
        lemma_base_color_outside_band(before, p.0 - previous.left(), p.1 - previous.top());
    }
    assert(faded.band_on(erased) =~= faded.image_on(
        filled(canvas, previous, Rgb888::black()@),
    ));
}

/// A redraw after the left edge moved left is as good as a full draw.
///
/// Take a canvas that shows a left-faded rectangle at `previous`, flush
/// with row 0 and at least as wide as its fade band. Let the new rectangle
/// share its top, height and right edge, with the left edge further left.
/// Then the redraw leaves what drawing the new rectangle in full would
/// leave.
pub proof fn lemma_expanding_redraw_matches_full_draw(
    faded: FadedRectangle,
    previous: Rectangle,
    canvas: Map<(int, int), (int, int, int)>,
)
    requires
        faded.fading is Left,
        faded.fading.steps() <= previous.size.width,
        previous.top_left.y == 0,
        faded.rect.top_left.y == 0,
        previous.size.height == faded.rect.size.height,
        previous.right() == faded.rect.right(),
        faded.rect.left() < previous.left(),
    ensures
        faded.diff_in_range(previous),
        performed_all(
            (FadedRectangle {
                rect: previous,
                base_color: faded.base_color,
                fading: faded.fading,
            }).image_on(canvas),
            faded.diff_commands(previous),
        ) == faded.image_on(canvas),
{
    let before = FadedRectangle {
        rect: previous,
        base_color: faded.base_color,
        fading: faded.fading,
    };
    let shown = before.image_on(canvas);
    let strip = faded.exposed_strip(previous);
    lemma_draw_diff_paints(faded, previous, shown);
    assert forall|p: (int, int)| faded.rect.covers(p) && !strip.rect.covers(p) implies shown[p]
        == faded.shade_of(p) by {
        lemma_base_color_outside_band(faded, p.0 - faded.rect.left(), p.1 - faded.rect.top());
        lemma_base_color_outside_band(before, p.0 - previous.left(), p.1 - previous.top());
    }
    assert(strip.image_on(shown) =~= faded.image_on(canvas));
}

} // verus!
