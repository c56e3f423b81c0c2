//! The arithmetic of the colour ramp: a fade factor between 0 (the colour
//! as it is) and 256 (black), and the channel value it leaves.
//!
//! Everything is integer arithmetic with truncating division, so that the
//! same inputs give the same pixel on every machine.

use vstd::prelude::*;

verus! {

/// The fade factor of a band that is darkest at offset 0 and `steps` wide:
/// `steps / steps` of full scale at the edge, one step lighter with every
/// pixel, nothing from offset `steps` on.
pub open spec fn leading_factor(steps: int, offset: int) -> int {
    if offset < steps {
        (steps - offset) * 256 / steps
    } else {
        0
    }
}

/// The offset at which a band of `steps` pixels begins that ends with an
/// extent of `extent` pixels; a band wider than the extent begins at 0.
pub open spec fn trailing_start(steps: int, extent: int) -> int {
    if extent > steps {
        extent - steps
    } else {
        0
    }
}

/// The fade factor of a band that occupies the last `steps` offsets of
/// `extent`: `1 / steps` of full scale where the band begins, one step
/// darker with every pixel.
pub open spec fn trailing_factor(steps: int, extent: int, offset: int) -> int {
    let start = trailing_start(steps, extent);
    if offset >= start {
        (offset - start + 1) * 256 / steps
    } else {
        0
    }
}

/// A channel value darkened by `factor` 256ths.
pub open spec fn shaded(channel: int, factor: int) -> int {
    channel * (256 - factor) / 256
}

/// `count` of `steps` steps is between one 256th and the whole of full scale.
proof fn lemma_step_fraction(count: int, steps: int)
    requires
        1 <= count <= steps <= 255,
    ensures
        1 <= count * 256 / steps <= 256,
        count == steps ==> count * 256 / steps == 256,
{
    assert(1 <= count * 256 / steps <= 256) by (nonlinear_arith)
        requires
            1 <= count <= steps <= 255,
    ;
    if count == steps {
        assert(steps * 256 / steps == 256) by (nonlinear_arith)
            requires
                1 <= steps,
        ;
    }
}

/// A leading factor is positive exactly inside the band, never above full
/// scale, and at full scale on the edge itself.
pub proof fn lemma_leading_factor(steps: int, offset: int)
    requires
        0 <= steps <= 255,
        0 <= offset,
    ensures
        0 <= leading_factor(steps, offset) <= 256,
        leading_factor(steps, offset) > 0 <==> offset < steps,
        offset == 0 && steps >= 1 ==> leading_factor(steps, offset) == 256,
{
    if offset < steps {
        lemma_step_fraction(steps - offset, steps);
    }
}

/// A trailing factor is positive exactly inside the band and never above
/// full scale. It reaches full scale on the last offset when the band is no
/// wider than the extent.
pub proof fn lemma_trailing_factor(steps: int, extent: int, offset: int)
    requires
        0 <= steps <= 255,
        0 <= offset < extent,
    ensures
        0 <= trailing_factor(steps, extent, offset) <= 256,
        trailing_factor(steps, extent, offset) > 0 <==> offset >= trailing_start(steps, extent),
        offset == extent - 1 && 1 <= steps <= extent ==> trailing_factor(steps, extent, offset)
            == 256,
{
    let start = trailing_start(steps, extent);
    if offset >= start {
        lemma_step_fraction(offset - start + 1, steps);
    }
}

/// Shading never brightens a channel; factor 0 leaves it and factor 256
/// blacks it out.
pub proof fn lemma_shaded(channel: int, factor: int)
    requires
        0 <= channel <= 255,
        0 <= factor <= 256,
    ensures
        0 <= shaded(channel, factor) <= channel,
        shaded(channel, 0) == channel,
        shaded(channel, 256) == 0,
{
    assert(0 <= channel * (256 - factor) <= channel * 256) by (nonlinear_arith)
        requires
            0 <= channel,
            0 <= factor <= 256,
    ;
}

/// Computes [`leading_factor`].
pub fn fade_toward_start(steps: u8, offset: u32) -> (factor: u16)
    ensures
        factor == leading_factor(steps as int, offset as int),
        factor <= 256,
{
    proof {
        lemma_leading_factor(steps as int, offset as int);
    }
    let steps: u32 = steps as u32;
    if offset < steps {
        assert((steps - offset) * 256 <= 255 * 256) by (nonlinear_arith)
            requires
                0 <= steps - offset <= 255,
        ;
        ((steps - offset) * 256 / steps) as u16
    } else {
        0
    }
}

/// Computes [`trailing_factor`] for an offset inside the extent.
pub fn fade_toward_end(steps: u8, extent: u32, offset: u32) -> (factor: u16)
    requires
        offset < extent,
    ensures
        factor == trailing_factor(steps as int, extent as int, offset as int),
        factor <= 256,
{
    proof {
        lemma_trailing_factor(steps as int, extent as int, offset as int);
    }
    let steps: u32 = steps as u32;
    let start: u32 = if extent > steps {
        extent - steps
    } else {
        0
    };
    if offset >= start {
        let count: u32 = offset - start + 1;
        assert(count * 256 <= 255 * 256) by (nonlinear_arith)
            requires
                0 <= count <= 255,
        ;
        (count * 256 / steps) as u16
    } else {
        0
    }
}

/// Computes [`shaded`].
pub fn shade(channel: u8, factor: u16) -> (value: u8)
    requires
        factor <= 256,
    ensures
        value == shaded(channel as int, factor as int),
{
    proof {
        lemma_shaded(channel as int, factor as int);
    }
    let scale: u32 = 256 - factor as u32;
    assert(channel as u32 * scale <= 255 * 256) by (nonlinear_arith)
        requires
            scale <= 256,
            channel <= 255,
    ;
    (channel as u32 * scale / 256) as u8
}

} // verus!
