//! Fits the canvas into the browser window.

use vstd::prelude::*;
use crate::scaler::{fitted_size, lemma_fitted_within};

verus! {

/// The size of the canvas on the page and in device pixels.
#[derive(Clone, Copy, Debug, PartialEq, Eq)]
pub struct CanvasLayout {
    /// The size on the page, in page pixels.
    pub style_size: (u32, u32),
    /// The size of what is drawn into, in device pixels.
    pub pixel_size: (u32, u32),
}

/// The quotient of `numerator` by `denominator` rounded to the nearest
/// whole number, a half rounded up, and capped at the largest `u32`.
pub open spec fn rounded_pixels(numerator: int, denominator: int) -> u32 {
    let exact = (2 * numerator + denominator) / (2 * denominator);
    if exact > u32::MAX {
        u32::MAX
    } else {
        exact as u32
    }
}

/// The size in device pixels of a canvas that is fitted into a window. The
/// canvas takes the largest size with its proportions that fits: one axis
/// fills the window, and the other has its exact share, which need not be
/// a whole number of page pixels. Either extent, multiplied by the pixel
/// ratio in thousandths, is rounded to the nearest device pixel.
pub open spec fn device_size(canvas: (u32, u32), window: (u32, u32), pixel_ratio: u32) -> (
    u32,
    u32,
) {
    let cw = canvas.0 as int;
    let ch = canvas.1 as int;
    let ww = window.0 as int;
    let wh = window.1 as int;
    let p = pixel_ratio as int;
    if cw == 0 || ch == 0 || ww == 0 || wh == 0 {
        (0, 0)
    } else if ww * ch <= wh * cw {
        (rounded_pixels(ww * p, 1000), rounded_pixels(ww * ch * p, cw * 1000))
    } else {
        (rounded_pixels(wh * cw * p, ch * 1000), rounded_pixels(wh * p, 1000))
    }
}

/// The layout of a canvas in a window: on the page, the largest size with
/// the proportions of the canvas that fits into the window, rounded down to
/// whole page pixels; and the size in device pixels, rounded from the exact
/// size and not from the size on the page.
pub open spec fn canvas_layout(canvas: (u32, u32), window: (u32, u32), pixel_ratio: u32) -> CanvasLayout {
    CanvasLayout {
        style_size: fitted_size(canvas, window),
        pixel_size: device_size(canvas, window, pixel_ratio),
    }
}

/// Computes the size that the canvas is to take when the window has the
/// inner size `window`, in page pixels, on a display with the pixel ratio
/// `pixel_ratio`, in thousandths. The canvas keeps the proportions of its
/// present size `canvas`. An empty canvas or window gives an empty layout.
pub fn on_external_resize(canvas: (u32, u32), window: (u32, u32), pixel_ratio: u32) -> (layout:
    CanvasLayout)
    ensures
        layout == canvas_layout(canvas, window, pixel_ratio),
        layout.style_size.0 <= window.0,
        layout.style_size.1 <= window.1,
{
    proof {
        lemma_fitted_within(canvas, window);
    }
    let fitted = crate::scaler::fit(canvas, window);
    let pixel_size = if canvas.0 == 0 || canvas.1 == 0 || window.0 == 0 || window.1 == 0 {
        (0, 0)
    } else {
        proof {
            lemma_products(window.0, canvas.1, window.1, canvas.0);
        }
        let by_width: u64 = (window.0 as u64) * (canvas.1 as u64);
        let by_height: u64 = (window.1 as u64) * (canvas.0 as u64);
        if by_width <= by_height {
            (
                round_pixels(window.0, 1, pixel_ratio, 1),
                round_pixels(window.0, canvas.1, pixel_ratio, canvas.0),
            )
        } else {
            (
                round_pixels(window.1, canvas.0, pixel_ratio, canvas.1),
                round_pixels(window.1, 1, pixel_ratio, 1),
            )
        }
    };
    CanvasLayout { style_size: fitted, pixel_size }
}

/// Products of two 32-bit numbers fit in 64 bits.
proof fn lemma_products(a: u32, b: u32, c: u32, d: u32)
    ensures
        0 <= a * b <= 0xffff_ffff * 0xffff_ffff,
        0 <= c * d <= 0xffff_ffff * 0xffff_ffff,
{
    assert(0 <= a * b <= 0xffff_ffff * 0xffff_ffff && 0 <= c * d <= 0xffff_ffff * 0xffff_ffff)
        by (nonlinear_arith)
        requires
            0 <= a <= 0xffff_ffff,
            0 <= b <= 0xffff_ffff,
            0 <= c <= 0xffff_ffff,
            0 <= d <= 0xffff_ffff,
    ;
}

/// Computes the extent `length * share / whole` in page pixels, multiplied
/// by the pixel ratio and rounded to the nearest device pixel.
fn round_pixels(length: u32, share: u32, pixel_ratio: u32, whole: u32) -> (pixels: u32)
    requires
        whole > 0,
    ensures
        pixels == rounded_pixels(length * share * pixel_ratio, whole * 1000),
{
    let l: u128 = length as u128;
    let s: u128 = share as u128;
    let p: u128 = pixel_ratio as u128;
    assert(0 <= l * s <= 0xffff_ffff * 0xffff_ffff && 0 <= l * s * p <= 0xffff_ffff * 0xffff_ffff
        * 0xffff_ffff) by (nonlinear_arith)
        requires
            0 <= l <= 0xffff_ffff,
            0 <= s <= 0xffff_ffff,
            0 <= p <= 0xffff_ffff,
    ;
    let numerator: u128 = l * s * p;
    let denominator: u128 = (whole as u128) * 1000;
    let exact: u128 = (2 * numerator + denominator) / (2 * denominator);
    if exact > u32::MAX as u128 {
        u32::MAX
    } else {
        exact as u32
    }
}

} // verus!
