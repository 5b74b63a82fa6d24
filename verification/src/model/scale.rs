//! The scale of a display, and lengths measured in its pixels.

use vstd::prelude::*;

use crate::geometry::{sat, saturate};
use crate::model::single::{round_to_single, rounding_keeps_the_order, single};

verus! {

/// The DPI of a display that has not been probed yet, and of one at 100 percent.
pub const DEFAULT_DPI: u32 = 96;

/// A display scale: the ratio of a DPI to [`DEFAULT_DPI`].
#[derive(Debug, Clone, Copy, PartialEq, Eq, Hash, Structural)]
pub struct Scale {
    /// The DPI of the display. 144 is 150 percent.
    pub dpi: u32,
}

impl Scale {
    /// The scale of a display with that DPI. A DPI of zero counts as 100 percent.
    #[must_use]
    #[verifier::allow_in_spec]
    pub fn of_dpi(dpi: u32) -> Self
        returns
            (Scale { dpi: if dpi == 0 { DEFAULT_DPI } else { dpi } }),
    {
        Scale { dpi: if dpi == 0 { DEFAULT_DPI } else { dpi } }
    }

    /// 100 percent.
    #[must_use]
    #[verifier::allow_in_spec]
    pub fn one() -> Self
        returns
            (Scale { dpi: DEFAULT_DPI }),
    {
        Scale { dpi: DEFAULT_DPI }
    }
}

/// The parts a pixel is divided into while a length is scaled. A factor of a
/// display scale is a whole number of these parts, and so is every product.
pub const PARTS: u128 = 0x4000_0000;

/// The factor `scale` stands for in single precision, in parts of a pixel.
pub open spec fn factor(scale: Scale) -> int {
    single(single(scale.dpi as int, 1) * PARTS, DEFAULT_DPI as int)
}

/// The size of `length * factor` in whole pixels. The length and the product are
/// rounded to single precision, and the product to whole pixels, halves up.
pub open spec fn pixels(length: int, factor: int) -> int {
    (single(single(length, 1) * factor, 1) + PARTS / 2) / (PARTS as int)
}

/// `x` times `scale` in single precision, rounded to the nearest integer, halves
/// away from zero. At 100 percent `x` itself.
pub open spec fn scaled(x: int, scale: Scale) -> i32 {
    sat(
        if scale.dpi == DEFAULT_DPI {
            x
        } else if x >= 0 {
            pixels(x, factor(scale))
        } else {
            -pixels(-x, factor(scale))
        },
    )
}

/// A logical length in the physical pixels of a display at `scale`.
#[must_use]
pub fn scale_padding(padding: i32, scale: Scale) -> (r: i32)
    ensures
        r == scaled(padding as int, scale),
{
    if scale.dpi == DEFAULT_DPI {
        return padding;
    }
    let length: u128 = if padding >= 0 {
        padding as u128
    } else {
        (-(padding as i64)) as u128
    };
    let dpi: u128 = round_to_single(scale.dpi as u128, 1);
    let factor: u128 = round_to_single(dpi * PARTS, DEFAULT_DPI as u128);
    let rounded: u128 = round_to_single(length, 1);
    assert(rounded * factor <= 0x1_0000_0001 * 0x2_0000_0000_0000_0000) by (nonlinear_arith)
        requires
            rounded <= 0x1_0000_0001,
            factor <= 0x2_0000_0000_0000_0000,
    ;
    let product: u128 = round_to_single(rounded * factor, 1);
    let whole: u128 = (product + PARTS / 2) / PARTS;
    let pixels: i64 = if whole > i32::MAX as u128 {
        i32::MAX as i64 + 1
    } else {
        whole as i64
    };
    saturate(
        if padding >= 0 {
            pixels
        } else {
            -pixels
        },
    )
}

/// At 100 percent a length is left alone.
pub proof fn full_scale_changes_nothing(x: i32)
    ensures
        scaled(x as int, Scale::one()) == x,
{
}

proof fn pixels_keep_the_order(a: int, b: int, factor: int)
    requires
        0 <= a <= b,
        0 <= factor,
    ensures
        0 <= pixels(a, factor) <= pixels(b, factor),
{
    rounding_keeps_the_order(a, b, 1);
    let (x, y) = (single(a, 1), single(b, 1));
    assert(0 <= x * factor <= y * factor) by (nonlinear_arith)
        requires
            0 <= x <= y,
            0 <= factor,
    ;
    rounding_keeps_the_order(x * factor, y * factor, 1);
}

/// A bigger length never gets smaller than a smaller one.
pub proof fn scaling_keeps_the_order(a: int, b: int, scale: Scale)
    requires
        a <= b,
    ensures
        scaled(a, scale) <= scaled(b, scale),
{
    let dpi = scale.dpi as int;
    rounding_keeps_the_order(dpi, dpi, 1);
    let parts = single(dpi, 1) * PARTS;
    rounding_keeps_the_order(parts, parts, DEFAULT_DPI as int);
    let by = factor(scale);
    if a >= 0 {
        pixels_keep_the_order(a, b, by);
    } else if b < 0 {
        pixels_keep_the_order(-b, -a, by);
    } else {
        pixels_keep_the_order(-a, -a, by);
        pixels_keep_the_order(b, b, by);
    }
}

} // verus!
