//! Mapping of a pointer position in the host's view of the screen to a tap
//! position on the device.
//!
//! The steps run in a fixed order: shift, scale from the view area to the
//! device display, invert each axis if asked, swap the axes if asked, and
//! truncate to `u16`, saturating at both ends. Scaling is exact: each axis is
//! kept as a fraction over the view size until the final truncation.

use vstd::prelude::*;

verus! {

/// The fixed settings of the click mapping.
#[derive(Clone, Copy, Debug, PartialEq, Eq, Structural)]
pub struct TransformConfig {
    /// Added to the pointer x position before scaling, in view pixels.
    pub shift_x: i32,
    /// Added to the pointer y position before scaling, in view pixels.
    pub shift_y: i32,
    /// Mirror x within the device width after scaling.
    pub invert_x: bool,
    /// Mirror y within the device height after scaling.
    pub invert_y: bool,
    /// Exchange x and y last.
    pub swap_axes: bool,
}

/// The largest value of `u16` type.
pub const COORD_MAX: u16 = 65535;

/// One axis after shift, scale and inversion, as a numerator over `area`.
pub open spec fn axis_numerator(pos: i32, shift: i32, invert: bool, area: u32, device: u32) -> int {
    let scaled = (pos + shift) * device;
    if invert {
        device * area - scaled
    } else {
        scaled
    }
}

/// `n / d` truncated toward zero and held to `0..=65535`.
pub open spec fn saturate_quotient(n: int, d: int) -> u16 {
    if n < 0 {
        0
    } else if n / d > COORD_MAX {
        COORD_MAX
    } else {
        (n / d) as u16
    }
}

/// One axis of the mapping.
pub open spec fn axis_spec(pos: i32, shift: i32, invert: bool, area: u32, device: u32) -> u16 {
    saturate_quotient(axis_numerator(pos, shift, invert, area, device), area as int)
}

/// The device position for pointer position `raw` in a view of size `area`,
/// on a device display of size `device`.
pub open spec fn transform_spec(
    raw: (i32, i32),
    area: (u32, u32),
    cfg: TransformConfig,
    device: (u32, u32),
) -> (u16, u16) {
    let x = axis_spec(raw.0, cfg.shift_x, cfg.invert_x, area.0, device.0);
    let y = axis_spec(raw.1, cfg.shift_y, cfg.invert_y, area.1, device.1);
    if cfg.swap_axes {
        (y, x)
    } else {
        (x, y)
    }
}

/// Each coordinate is the exact mapped value truncated toward zero and held
/// to `0..=65535`: the largest `v` in that range with `v * area` at most the
/// numerator (or at most zero when the numerator is negative).
pub proof fn lemma_axis_saturates(pos: i32, shift: i32, invert: bool, area: u32, device: u32)
    requires
        area > 0,
    ensures
        ({
            let n = axis_numerator(pos, shift, invert, area, device);
            let m = if n < 0 {
                0
            } else {
                n
            };
            let v = axis_spec(pos, shift, invert, area, device) as int;
            &&& 0 <= v <= 65535
            &&& v * area <= m
            &&& (v == 65535 || m < (v + 1) * area)
        }),
{
    let n = axis_numerator(pos, shift, invert, area, device);
    let d = area as int;
    if n >= 0 {
        let q = n / d;
        assert(q * d <= n && n < (q + 1) * d) by (nonlinear_arith)
            requires
                d > 0,
                n >= 0,
                q == n / d,
        ;
        if q > 65535 {
            assert(65535 * d <= q * d) by (nonlinear_arith)
                requires
                    q > 65535,
                    d > 0,
            ;
        }
    }
}

fn axis(pos: i32, shift: i32, invert: bool, area: u32, device: u32) -> (r: u16)
    requires
        area > 0,
    ensures
        r == axis_spec(pos, shift, invert, area, device),
{
    let p: i128 = pos as i128 + shift as i128;
    let dv: i128 = device as i128;
    let ar: i128 = area as i128;
    assert(-0x1_0000_0000_0000_0000 <= p * dv <= 0x1_0000_0000_0000_0000) by (nonlinear_arith)
        requires
            -0x1_0000_0000 <= p <= 0x1_0000_0000,
            0 <= dv < 0x1_0000_0000,
    ;
    assert(0 <= dv * ar <= 0x1_0000_0000_0000_0000) by (nonlinear_arith)
        requires
            0 <= ar < 0x1_0000_0000,
            0 <= dv < 0x1_0000_0000,
    ;
    let scaled: i128 = p * dv;
    let n: i128 = if invert {
        dv * ar - scaled
    } else {
        scaled
    };
    if n < 0 {
        0
    } else {
        let q: u128 = n as u128 / ar as u128;
        if q > COORD_MAX as u128 {
            COORD_MAX
        } else {
            q as u16
        }
    }
}

/// Maps pointer position `raw`, in a view of size `area`, to a device
/// position on a display of size `device`. There is no mapping from a view
/// with no width or no height.
pub fn transform(raw: (i32, i32), area: (u32, u32), cfg: &TransformConfig, device: (u32, u32)) -> (r:
    Option<(u16, u16)>)
    ensures
        r == (if area.0 == 0 || area.1 == 0 {
            None
        } else {
            Some(transform_spec(raw, area, *cfg, device))
        }),
{
    if area.0 == 0 || area.1 == 0 {
        return None;
    }
    let x = axis(raw.0, cfg.shift_x, cfg.invert_x, area.0, device.0);
    let y = axis(raw.1, cfg.shift_y, cfg.invert_y, area.1, device.1);
    if cfg.swap_axes {
        Some((y, x))
    } else {
        Some((x, y))
    }
}

} // verus!
