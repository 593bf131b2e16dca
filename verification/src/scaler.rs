//! Maps the logical render size onto the physical window.
//!
//! The content is drawn at a logical resolution and shown inside the window
//! at the largest uniform scale that fits between the gutters. Whatever the
//! window leaves over on one axis becomes extra border on that axis, split
//! evenly between its two sides. With a tile size set, the scale is rounded
//! down so that a tile takes a whole number of pixels. All sizes are whole
//! pixels; scale factors are given in thousandths, so that 1000 stands for
//! 1.0.

use vstd::prelude::*;

verus! {

/// The scale factor that leaves a size unchanged.
pub const SCALE_ONE: u32 = 1000;

/// A pixel count multiplied by a scale factor in thousandths, rounded down
/// and capped at the largest `u32`.
pub open spec fn scaled_dimension(pixels: u32, scale: u32) -> u32 {
    let exact = (pixels as int * scale as int) / 1000;
    if exact > u32::MAX {
        u32::MAX
    } else {
        exact as u32
    }
}

/// What is left of one window axis once the gutter is taken off both ends.
/// With a tile size, the rest is cut down to a whole number of tiles.
pub open spec fn available_extent(physical: u32, gutter: u32, tile: u32) -> u32 {
    let inner: int = if physical as int >= 2 * gutter as int {
        physical as int - 2 * gutter as int
    } else {
        0
    };
    if tile > 0 {
        (inner - inner % (tile as int)) as u32
    } else {
        inner as u32
    }
}

/// The largest size with the proportions of `logical` that fits inside
/// `available`. One axis fills the available space; the other is rounded
/// down to whole pixels. An empty input gives an empty size.
pub open spec fn fitted_size(logical: (u32, u32), available: (u32, u32)) -> (u32, u32) {
    if logical.0 == 0 || logical.1 == 0 || available.0 == 0 || available.1 == 0 {
        (0, 0)
    } else if available.0 as int * logical.1 as int <= available.1 as int * logical.0 as int {
        (available.0, ((available.0 as int * logical.1 as int) / (logical.0 as int)) as u32)
    } else {
        (((available.1 as int * logical.0 as int) / (logical.1 as int)) as u32, available.1)
    }
}

/// The extent of a tile that the scale is rounded by: its width, or its
/// height if no width is set; 0 if neither is.
pub open spec fn tile_extent(tile: (u32, u32)) -> u32 {
    if tile.0 > 0 {
        tile.0
    } else {
        tile.1
    }
}

/// The largest whole number of pixels that the extent of a tile can take
/// so that content of the size `logical`, scaled alike, still fits inside
/// `available`; 0 if no tile size is set or the content is empty.
pub open spec fn tile_pixels(logical: (u32, u32), available: (u32, u32), tile: (u32, u32)) -> int {
    let t = tile_extent(tile) as int;
    if t > 0 && logical.0 > 0 && logical.1 > 0 {
        let by_width = (t * available.0) / (logical.0 as int);
        let by_height = (t * available.1) / (logical.1 as int);
        if by_width <= by_height {
            by_width
        } else {
            by_height
        }
    } else {
        0
    }
}

/// The size at which content of the size `logical` is shown inside
/// `available`. Where a tile can take a whole number of pixels, the content
/// is shown at the largest scale at which it does, each extent rounded down
/// to whole pixels. Otherwise it is shown at the largest size that fits.
pub open spec fn shown_size(logical: (u32, u32), available: (u32, u32), tile: (u32, u32)) -> (
    u32,
    u32,
) {
    let k = tile_pixels(logical, available, tile);
    let t = tile_extent(tile) as int;
    if k >= 1 {
        (((logical.0 * k) / t) as u32, ((logical.1 * k) / t) as u32)
    } else {
        fitted_size(logical, available)
    }
}

/// The state of the display scaling: what was asked for, and what follows
/// from it.
#[derive(Clone, Copy, Debug, PartialEq, Eq)]
pub struct ScreenScaler {
    /// The smallest border to keep free on every side, in physical pixels.
    pub desired_gutter: u32,
    /// The content size that the application asked for, before scaling.
    pub desired_size: (u32, u32),
    /// The display's scale factor, in thousandths.
    pub scale_factor: u32,
    /// The tile size that the available space and the scale are aligned
    /// to; 0 on an axis leaves that axis unaligned.
    pub tile_size: (u32, u32),
    /// The size of the window, in physical pixels.
    pub physical_size: (u32, u32),
    /// The resolution at which content is rendered.
    pub logical_size: (u32, u32),
    /// The width of the window between the gutters.
    pub available_width: u32,
    /// The height of the window between the gutters.
    pub available_height: u32,
    /// The size at which the content is shown inside the window.
    pub displayed_size: (u32, u32),
    /// The border to the left of the content, in physical pixels.
    pub gutter_left: u32,
    /// The border to the right of the content.
    pub gutter_right: u32,
    /// The border above the content.
    pub gutter_top: u32,
    /// The border below the content.
    pub gutter_bottom: u32,
}

impl ScreenScaler {
    /// The same inputs with every derived field computed afresh.
    pub open spec fn recalculated(self) -> ScreenScaler {
        let available_width = available_extent(
            self.physical_size.0,
            self.desired_gutter,
            self.tile_size.0,
        );
        let available_height = available_extent(
            self.physical_size.1,
            self.desired_gutter,
            self.tile_size.1,
        );
        let displayed = shown_size(
            self.logical_size,
            (available_width, available_height),
            self.tile_size,
        );
        let left = ((self.physical_size.0 - displayed.0) / 2) as u32;
        let top = ((self.physical_size.1 - displayed.1) / 2) as u32;
        ScreenScaler {
            available_width,
            available_height,
            displayed_size: displayed,
            gutter_left: left,
            gutter_right: (self.physical_size.0 - displayed.0 - left) as u32,
            gutter_top: top,
            gutter_bottom: (self.physical_size.1 - displayed.1 - top) as u32,
            ..self
        }
    }

    /// The derived fields agree with the inputs.
    pub open spec fn wf(self) -> bool {
        self == self.recalculated()
    }

    /// The scaler for a window of the given size that shows content of that
    /// same size.
    pub open spec fn spec_new(desired_gutter: u32, width: u32, height: u32) -> ScreenScaler {
        (ScreenScaler {
            desired_gutter,
            desired_size: (width, height),
            scale_factor: SCALE_ONE,
            tile_size: (0, 0),
            physical_size: (width, height),
            logical_size: (width, height),
            available_width: 0,
            available_height: 0,
            displayed_size: (0, 0),
            gutter_left: 0,
            gutter_right: 0,
            gutter_top: 0,
            gutter_bottom: 0,
        }).recalculated()
    }

    /// The scaler after the application asked for another content size.
    pub open spec fn with_logical_size(self, width: u32, height: u32, scale: u32) -> ScreenScaler {
        (ScreenScaler {
            desired_size: (width, height),
            scale_factor: scale,
            logical_size: (scaled_dimension(width, scale), scaled_dimension(height, scale)),
            ..self
        }).recalculated()
    }

    /// The scaler after the window took another size.
    pub open spec fn resized(self, width: u32, height: u32, scale: u32, tile: (u32, u32)) -> ScreenScaler {
        (ScreenScaler {
            physical_size: (width, height),
            scale_factor: scale,
            tile_size: tile,
            logical_size: (
                scaled_dimension(self.desired_size.0, scale),
                scaled_dimension(self.desired_size.1, scale),
            ),
            ..self
        }).recalculated()
    }

    /// The scaler after the content grew to fill the space between the
    /// gutters.
    pub open spec fn grown(self) -> ScreenScaler {
        (ScreenScaler {
            logical_size: (self.available_width, self.available_height),
            ..self
        }).recalculated()
    }

    /// Nothing can be shown: the content has no area inside the window.
    pub open spec fn spec_is_degenerate(self) -> bool {
        self.displayed_size.0 == 0 || self.displayed_size.1 == 0
    }

    /// Creates the scaler for a window of `width` by `height` physical pixels
    /// that keeps `desired_gutter` pixels free on every side.
    pub fn new(desired_gutter: u32, width: u32, height: u32) -> (s: ScreenScaler)
        ensures
            s == ScreenScaler::spec_new(desired_gutter, width, height),
            s.wf(),
    {
        let mut s = ScreenScaler {
            desired_gutter,
            desired_size: (width, height),
            scale_factor: SCALE_ONE,
            tile_size: (0, 0),
            physical_size: (width, height),
            logical_size: (width, height),
            available_width: 0,
            available_height: 0,
            displayed_size: (0, 0),
            gutter_left: 0,
            gutter_right: 0,
            gutter_top: 0,
            gutter_bottom: 0,
        };
        s.recalculate_coordinates();
        s
    }

    /// Sets the content size that the application renders at. The logical
    /// size is that size multiplied by the display's scale factor.
    pub fn change_logical_size(&mut self, width: u32, height: u32, scale: u32)
        ensures
            *final(self) == old(self).with_logical_size(width, height, scale),
            final(self).wf(),
    {
        self.desired_size = (width, height);
        self.scale_factor = scale;
        self.logical_size = (scale_dimension(width, scale), scale_dimension(height, scale));
        self.recalculate_coordinates();
    }

    /// Takes over a new window size and scale factor, without aligning the
    /// available space to tiles.
    pub fn change_physical_size(&mut self, width: u32, height: u32, scale: u32)
        ensures
            *final(self) == old(self).resized(width, height, scale, (0, 0)),
            final(self).wf(),
    {
        self.change_physical_size_smooth(width, height, scale, (0, 0));
    }

    /// Takes over a new window size and scale factor, and aligns to tiles
    /// of size `max_font` so that no glyph is sheared. The space between
    /// the gutters is cut down to a whole number of tiles; an axis with
    /// tile size 0 is left as it is. The scale is rounded down so that the
    /// width of a tile, or its height if no width is given, takes a whole
    /// number of pixels. What either rounding leaves over goes to the
    /// borders. Where a tile would take less than one pixel, the scale is
    /// not rounded. A window with less room than one tile shows nothing.
    pub fn change_physical_size_smooth(
        &mut self,
        width: u32,
        height: u32,
        scale: u32,
        max_font: (u32, u32),
    )
        ensures
            *final(self) == old(self).resized(width, height, scale, max_font),
            final(self).wf(),
    {
        self.physical_size = (width, height);
        self.scale_factor = scale;
        self.tile_size = max_font;
        self.logical_size = (
            scale_dimension(self.desired_size.0, scale),
            scale_dimension(self.desired_size.1, scale),
        );
        self.recalculate_coordinates();
    }

    /// Lets the content grow to the space between the gutters: the logical
    /// size becomes the available size, shown at its natural scale.
    pub fn grow_to_available(&mut self)
        ensures
            *final(self) == old(self).grown(),
            final(self).wf(),
    {
        self.logical_size = (self.available_width, self.available_height);
        self.recalculate_coordinates();
    }

    /// The borders around the content inside the window, in physical pixels:
    /// left, right, top, bottom. The content is letterboxed by these, never
    /// stretched.
    pub fn get_backing_buffer_output_coordinates(&self) -> (r: (u32, u32, u32, u32))
        ensures
            r == (self.gutter_left, self.gutter_right, self.gutter_top, self.gutter_bottom),
    {
        (self.gutter_left, self.gutter_right, self.gutter_top, self.gutter_bottom)
    }

    /// The scale at which the content is shown, as a fraction: numerator
    /// and denominator. It is the same on both axes. Where the scale is
    /// rounded to tiles, it is the pixels of a tile over the extent of the
    /// tile; else it is the extent of the shown content over the logical
    /// extent, on the axis that fills the space between the gutters.
    pub open spec fn spec_scale(self) -> (u64, u64) {
        let k = tile_pixels(
            self.logical_size,
            (self.available_width, self.available_height),
            self.tile_size,
        );
        if k >= 1 {
            (k as u64, tile_extent(self.tile_size) as u64)
        } else if self.available_width as int * self.logical_size.1 as int
            <= self.available_height as int * self.logical_size.0 as int {
            (self.displayed_size.0 as u64, self.logical_size.0 as u64)
        } else {
            (self.displayed_size.1 as u64, self.logical_size.1 as u64)
        }
    }

    /// The scale at which the content is shown, as numerator and
    /// denominator. The denominator is 0 only if the logical size is
    /// empty.
    pub fn get_scale(&self) -> (scale: (u64, u64))
        ensures
            scale == self.spec_scale(),
    {
        proof {
            lemma_product_fits(self.available_width, self.logical_size.1);
            lemma_product_fits(self.available_height, self.logical_size.0);
        }
        let k = pixels_per_tile(
            self.logical_size,
            (self.available_width, self.available_height),
            self.tile_size,
        );
        if k >= 1 {
            let t: u32 = if self.tile_size.0 > 0 {
                self.tile_size.0
            } else {
                self.tile_size.1
            };
            (k, t as u64)
        } else if (self.available_width as u64) * (self.logical_size.1 as u64) <= (
        self.available_height as u64) * (self.logical_size.0 as u64) {
            (self.displayed_size.0 as u64, self.logical_size.0 as u64)
        } else {
            (self.displayed_size.1 as u64, self.logical_size.1 as u64)
        }
    }

    /// Whether the content has no area inside the window. A frame must not
    /// be drawn while this holds.
    pub fn is_degenerate(&self) -> (r: bool)
        ensures
            r == self.spec_is_degenerate(),
    {
        self.displayed_size.0 == 0 || self.displayed_size.1 == 0
    }

    /// Computes every derived field from the inputs.
    fn recalculate_coordinates(&mut self)
        ensures
            *final(self) == old(self).recalculated(),
            final(self).wf(),
    {
        self.available_width = available(
            self.physical_size.0,
            self.desired_gutter,
            self.tile_size.0,
        );
        self.available_height = available(
            self.physical_size.1,
            self.desired_gutter,
            self.tile_size.1,
        );
        self.displayed_size = show(
            self.logical_size,
            (self.available_width, self.available_height),
            self.tile_size,
        );
        proof {
            lemma_shown_within(
                self.logical_size,
                (self.available_width, self.available_height),
                self.tile_size,
            );
        }
        self.gutter_left = (self.physical_size.0 - self.displayed_size.0) / 2;
        self.gutter_right = self.physical_size.0 - self.displayed_size.0 - self.gutter_left;
        self.gutter_top = (self.physical_size.1 - self.displayed_size.1) / 2;
        self.gutter_bottom = self.physical_size.1 - self.displayed_size.1 - self.gutter_top;
    }
}

impl Default for ScreenScaler {
    /// The scaler of an empty window.
    fn default() -> (s: ScreenScaler)
        ensures
            s == ScreenScaler::spec_new(0, 0, 0),
            s.wf(),
    {
        ScreenScaler::new(0, 0, 0)
    }
}

/// Multiplies a pixel count by a scale factor in thousandths.
pub fn scale_dimension(pixels: u32, scale: u32) -> (r: u32)
    ensures
        r == scaled_dimension(pixels, scale),
{
    proof {
        lemma_product_fits(pixels, scale);
    }
    let product: u64 = (pixels as u64) * (scale as u64);
    let exact: u64 = product / 1000;
    if exact > u32::MAX as u64 {
        u32::MAX
    } else {
        exact as u32
    }
}

/// Takes the gutter off both ends of one window axis and aligns the rest to
/// the tile size.
fn available(physical: u32, gutter: u32, tile: u32) -> (r: u32)
    ensures
        r == available_extent(physical, gutter, tile),
        r <= physical,
{
    let twice: u64 = 2 * (gutter as u64);
    let inner: u32 = if physical as u64 >= twice {
        ((physical as u64) - twice) as u32
    } else {
        0
    };
    if tile > 0 {
        assert(inner % tile <= inner) by (nonlinear_arith)
            requires
                tile > 0,
        ;
        inner - inner % tile
    } else {
        inner
    }
}

/// Fits the logical size into the available size.
pub fn fit(logical: (u32, u32), available: (u32, u32)) -> (r: (u32, u32))
    ensures
        r == fitted_size(logical, available),
{
    if logical.0 == 0 || logical.1 == 0 || available.0 == 0 || available.1 == 0 {
        return (0, 0);
    }
    proof {
        lemma_fitted_within(logical, available);
        lemma_product_fits(available.0, logical.1);
        lemma_product_fits(available.1, logical.0);
    }
    let by_width: u64 = (available.0 as u64) * (logical.1 as u64);
    let by_height: u64 = (available.1 as u64) * (logical.0 as u64);
    if by_width <= by_height {
        (available.0, (by_width / (logical.0 as u64)) as u32)
    } else {
        ((by_height / (logical.1 as u64)) as u32, available.1)
    }
}

/// Computes the largest whole number of pixels that the extent of a tile
/// can take.
fn pixels_per_tile(logical: (u32, u32), available: (u32, u32), tile: (u32, u32)) -> (k: u64)
    ensures
        k == tile_pixels(logical, available, tile),
{
    let t: u32 = if tile.0 > 0 {
        tile.0
    } else {
        tile.1
    };
    if t == 0 || logical.0 == 0 || logical.1 == 0 {
        return 0;
    }
    proof {
        lemma_product_fits(t, available.0);
        lemma_product_fits(t, available.1);
    }
    let by_width: u64 = ((t as u64) * (available.0 as u64)) / (logical.0 as u64);
    let by_height: u64 = ((t as u64) * (available.1 as u64)) / (logical.1 as u64);
    if by_width <= by_height {
        by_width
    } else {
        by_height
    }
}

/// Computes the size at which the content is shown.
fn show(logical: (u32, u32), available: (u32, u32), tile: (u32, u32)) -> (r: (u32, u32))
    ensures
        r == shown_size(logical, available, tile),
{
    let k = pixels_per_tile(logical, available, tile);
    if k >= 1 {
        let t: u32 = if tile.0 > 0 {
            tile.0
        } else {
            tile.1
        };
        proof {
            lemma_shown_within(logical, available, tile);
            lemma_rounded_extent(logical.0 as int, available.0 as int, t as int, k as int);
            lemma_rounded_extent(logical.1 as int, available.1 as int, t as int, k as int);
            lemma_product_fits(t, available.0);
            lemma_product_fits(t, available.1);
        }
        (
            (((logical.0 as u64) * k) / (t as u64)) as u32,
            (((logical.1 as u64) * k) / (t as u64)) as u32,
        )
    } else {
        fit(logical, available)
    }
}

/// Content whose tiles take `k` pixels for an extent of `t`, with `k` no
/// more than the available extent allows, is no larger than the available
/// extent.
proof fn lemma_rounded_extent(logical: int, available: int, t: int, k: int)
    requires
        logical > 0,
        available >= 0,
        t > 0,
        0 <= k <= (t * available) / logical,
    ensures
        0 <= logical * k <= t * available,
        0 <= (logical * k) / t <= available,
{
    lemma_floor_bounds(t * available, logical);
    assert(0 <= logical * k <= t * available) by (nonlinear_arith)
        requires
            0 <= k <= (t * available) / logical,
            ((t * available) / logical) * logical <= t * available,
            logical > 0,
    ;
    assert(0 <= (logical * k) / t <= available) by (nonlinear_arith)
        requires
            0 <= logical * k <= t * available,
            t > 0,
    ;
}

/// The size at which content is shown never exceeds the available size.
pub proof fn lemma_shown_within(logical: (u32, u32), available: (u32, u32), tile: (u32, u32))
    ensures
        shown_size(logical, available, tile).0 <= available.0,
        shown_size(logical, available, tile).1 <= available.1,
        tile_pixels(logical, available, tile) >= 0,
        tile_pixels(logical, available, tile) >= 1 ==> {
            let k = tile_pixels(logical, available, tile);
            let t = tile_extent(tile) as int;
            &&& t > 0
            &&& logical.0 > 0
            &&& logical.1 > 0
            &&& k <= (t * available.0) / (logical.0 as int)
            &&& k <= (t * available.1) / (logical.1 as int)
            &&& k <= u64::MAX
            &&& 0 <= (logical.0 * k) / t <= available.0
            &&& 0 <= (logical.1 * k) / t <= available.1
        },
{
    lemma_fitted_within(logical, available);
    let t = tile_extent(tile) as int;
    if t > 0 && logical.0 > 0 && logical.1 > 0 {
        lemma_product_fits(tile_extent(tile), available.0);
        lemma_product_fits(tile_extent(tile), available.1);
        lemma_floor_bounds(t * available.0, logical.0 as int);
        lemma_floor_bounds(t * available.1, logical.1 as int);
        let k = tile_pixels(logical, available, tile);
        assert(0 <= (t * available.0) / (logical.0 as int) <= t * available.0) by (nonlinear_arith)
            requires
                t * available.0 >= 0,
                logical.0 > 0,
        ;
        if k >= 1 {
            lemma_rounded_extent(logical.0 as int, available.0 as int, t, k);
            lemma_rounded_extent(logical.1 as int, available.1 as int, t, k);
        }
    }
}

/// The product of two 32-bit numbers fits in 64 bits.
proof fn lemma_product_fits(a: u32, b: u32)
    ensures
        0 <= a as int * b as int <= u64::MAX,
{
    assert(0 <= a as int * b as int <= 0xFFFF_FFFF * 0xFFFF_FFFF) by (nonlinear_arith)
        requires
            0 <= a as int <= 0xFFFF_FFFF,
            0 <= b as int <= 0xFFFF_FFFF,
    ;
}

/// The fitted size never exceeds the available size.
pub proof fn lemma_fitted_within(logical: (u32, u32), available: (u32, u32))
    ensures
        fitted_size(logical, available).0 <= available.0,
        fitted_size(logical, available).1 <= available.1,
        logical.0 > 0 && logical.1 > 0 ==> {
            &&& (available.0 as int * logical.1 as int) / (logical.0 as int) >= 0
            &&& (available.1 as int * logical.0 as int) / (logical.1 as int) >= 0
            &&& available.0 as int * logical.1 as int <= available.1 as int * logical.0 as int
                ==> (available.0 as int * logical.1 as int) / (logical.0 as int) <= available.1
            &&& available.0 as int * logical.1 as int > available.1 as int * logical.0 as int
                ==> (available.1 as int * logical.0 as int) / (logical.1 as int) <= available.0
        },
{
    if logical.0 > 0 && logical.1 > 0 {
        let aw = available.0 as int;
        let ah = available.1 as int;
        let lw = logical.0 as int;
        let lh = logical.1 as int;
        assert((aw * lh) / lw >= 0 && (ah * lw) / lh >= 0) by (nonlinear_arith)
            requires
                aw >= 0,
                ah >= 0,
                lw > 0,
                lh > 0,
        ;
        assert(aw * lh <= ah * lw ==> (aw * lh) / lw <= ah) by (nonlinear_arith)
            requires
                aw >= 0,
                ah >= 0,
                lw > 0,
                lh > 0,
        ;
        assert(aw * lh > ah * lw ==> (ah * lw) / lh <= aw) by (nonlinear_arith)
            requires
                aw >= 0,
                ah >= 0,
                lw > 0,
                lh > 0,
        ;
    }
}

/// A quotient rounded down is within one step of the exact quotient.
proof fn lemma_floor_bounds(a: int, d: int)
    requires
        a >= 0,
        d > 0,
    ensures
        0 <= (a / d) * d <= a < (a / d + 1) * d,
{
    assert(0 <= (a / d) * d <= a < (a / d + 1) * d) by (nonlinear_arith)
        requires
            a >= 0,
            d > 0,
    ;
}

/// In a well-formed scaler the space between the gutters lies inside the
/// window, the content as shown lies inside that space, and content and
/// borders together cover the window exactly. Where the window is large
/// enough to hold both gutters, every border is at least the gutter, and
/// the space between the gutters is the window less the gutters, cut down to
/// whole tiles where a tile size is set.
pub proof fn lemma_content_fits(s: ScreenScaler)
    requires
        s.wf(),
    ensures
        s.available_width <= s.physical_size.0,
        s.available_height <= s.physical_size.1,
        s.displayed_size.0 <= s.available_width,
        s.displayed_size.1 <= s.available_height,
        s.gutter_left + s.displayed_size.0 + s.gutter_right == s.physical_size.0,
        s.gutter_top + s.displayed_size.1 + s.gutter_bottom == s.physical_size.1,
        s.gutter_left <= s.gutter_right <= s.gutter_left + 1,
        s.gutter_top <= s.gutter_bottom <= s.gutter_top + 1,
        s.physical_size.0 >= 2 * s.desired_gutter ==> s.gutter_left >= s.desired_gutter
            && s.gutter_right >= s.desired_gutter,
        s.physical_size.1 >= 2 * s.desired_gutter ==> s.gutter_top >= s.desired_gutter
            && s.gutter_bottom >= s.desired_gutter,
        s.physical_size.0 >= 2 * s.desired_gutter && s.tile_size.0 == 0 ==> s.available_width
            == s.physical_size.0 - 2 * s.desired_gutter,
        s.physical_size.1 >= 2 * s.desired_gutter && s.tile_size.1 == 0 ==> s.available_height
            == s.physical_size.1 - 2 * s.desired_gutter,
        s.tile_size.0 > 0 ==> s.available_width as int % (s.tile_size.0 as int) == 0,
        s.tile_size.1 > 0 ==> s.available_height as int % (s.tile_size.1 as int) == 0,
{
    lemma_shown_within(s.logical_size, (s.available_width, s.available_height), s.tile_size);
    lemma_available_within(s.physical_size.0, s.desired_gutter, s.tile_size.0);
    lemma_available_within(s.physical_size.1, s.desired_gutter, s.tile_size.1);
}

/// The available extent is at most the window's extent less both gutters.
proof fn lemma_available_within(physical: u32, gutter: u32, tile: u32)
    ensures
        available_extent(physical, gutter, tile) <= physical,
        physical >= 2 * gutter ==> available_extent(physical, gutter, tile) + 2 * gutter
            <= physical,
        tile > 0 ==> available_extent(physical, gutter, tile) as int % (tile as int) == 0,
{
    let inner: int = if physical as int >= 2 * gutter as int {
        physical as int - 2 * gutter as int
    } else {
        0
    };
    if tile > 0 {
        let t = tile as int;
        assert(0 <= inner % t <= inner && (inner - inner % t) % t == 0) by (nonlinear_arith)
            requires
                inner >= 0,
                t > 0,
        ;
    }
}

/// Whatever state came before, after a resize to any window size, scale
/// factor and tile size the content lies inside the space between the
/// gutters, and that space inside the window.
pub proof fn lemma_resized_content_fits(
    before: ScreenScaler,
    width: u32,
    height: u32,
    scale: u32,
    tile: (u32, u32),
)
    ensures
        ({
            let s = before.resized(width, height, scale, tile);
            &&& s.wf()
            &&& s.physical_size == (width, height)
            &&& s.available_width <= width
            &&& s.available_height <= height
            &&& s.displayed_size.0 <= s.available_width
            &&& s.displayed_size.1 <= s.available_height
            &&& s.gutter_left + s.displayed_size.0 + s.gutter_right == width
            &&& s.gutter_top + s.displayed_size.1 + s.gutter_bottom == height
            &&& width >= 2 * s.desired_gutter ==> s.gutter_left >= s.desired_gutter
                && s.gutter_right >= s.desired_gutter
            &&& height >= 2 * s.desired_gutter ==> s.gutter_top >= s.desired_gutter
                && s.gutter_bottom >= s.desired_gutter
        }),
{
    let s = before.resized(width, height, scale, tile);
    lemma_recalculated_wf(s);
    lemma_content_fits(s);
}

/// Computing the derived fields twice changes nothing.
pub proof fn lemma_recalculated_wf(s: ScreenScaler)
    ensures
        s.recalculated().wf(),
{
}

/// The content is shown with its proportions kept: the shown width and the
/// shown height stand to each other as the logical width and the logical
/// height, to the pixel. Either is less than one pixel above its
/// proportional share of the other. Where the scale is not rounded to
/// tiles, one axis fills the space between the gutters.
pub proof fn lemma_aspect_preserved(s: ScreenScaler)
    requires
        s.wf(),
        s.logical_size.0 > 0,
        s.logical_size.1 > 0,
    ensures
        s.displayed_size.0 * s.logical_size.1 < (s.displayed_size.1 + 1) * s.logical_size.0,
        s.displayed_size.1 * s.logical_size.0 < (s.displayed_size.0 + 1) * s.logical_size.1,
        tile_pixels(s.logical_size, (s.available_width, s.available_height), s.tile_size) < 1
            && s.available_width > 0 && s.available_height > 0 ==> s.displayed_size.0
            == s.available_width || s.displayed_size.1 == s.available_height,
{
    let lw = s.logical_size.0 as int;
    let lh = s.logical_size.1 as int;
    let aw = s.available_width as int;
    let ah = s.available_height as int;
    let dw = s.displayed_size.0 as int;
    let dh = s.displayed_size.1 as int;
    let k = tile_pixels(s.logical_size, (s.available_width, s.available_height), s.tile_size);
    let t = tile_extent(s.tile_size) as int;
    lemma_shown_within(s.logical_size, (s.available_width, s.available_height), s.tile_size);
    lemma_fitted_within(s.logical_size, (s.available_width, s.available_height));
    lemma_product_fits(s.available_width, s.logical_size.1);
    lemma_product_fits(s.available_height, s.logical_size.0);
    if k >= 1 {
        lemma_rounded_extent(lw, aw, t, k);
        lemma_rounded_extent(lh, ah, t, k);
        lemma_floor_bounds(lw * k, t);
        lemma_floor_bounds(lh * k, t);
        lemma_same_scale(lw, lh, dw, dh, k, t);
        lemma_same_scale(lh, lw, dh, dw, k, t);
    } else if aw == 0 || ah == 0 {
        assert(dw * lh == 0 && dh * lw == 0 && (dh + 1) * lw > 0 && (dw + 1) * lh > 0)
            by (nonlinear_arith)
            requires
                dw == 0,
                dh == 0,
                lw > 0,
                lh > 0,
        ;
    } else if aw * lh <= ah * lw {
        lemma_floor_bounds(aw * lh, lw);
        assert(dh * lw < (dw + 1) * lh) by (nonlinear_arith)
            requires
                dh * lw <= aw * lh,
                dw == aw,
                lh > 0,
        ;
    } else {
        lemma_floor_bounds(ah * lw, lh);
        assert(dw * lh < (dh + 1) * lw) by (nonlinear_arith)
            requires
                dw * lh <= ah * lw,
                dh == ah,
                lw > 0,
        ;
    }
}

/// Two extents that are shown at one scale `k / t`, each rounded down to
/// whole pixels, keep their proportion to the pixel.
proof fn lemma_same_scale(la: int, lb: int, da: int, db: int, k: int, t: int)
    requires
        la > 0,
        lb > 0,
        t > 0,
        k >= 0,
        0 <= da,
        0 <= db,
        da * t <= la * k,
        lb * k < (db + 1) * t,
    ensures
        da * lb < (db + 1) * la,
{
    assert(da * lb < (db + 1) * la) by (nonlinear_arith)
        requires
            la > 0,
            lb > 0,
            t > 0,
            k >= 0,
            0 <= da,
            0 <= db,
            da * t <= la * k,
            lb * k < (db + 1) * t,
    ;
}

/// Where the scale is not rounded to tiles, the content is shown at the
/// largest scale at which it fits between the gutters: at any scale `p / q`
/// at which the logical size fits, it is shown no larger than it is, to the
/// pixel.
pub proof fn lemma_scale_is_largest(s: ScreenScaler, p: int, q: int)
    requires
        s.wf(),
        0 <= p,
        0 < q,
        s.logical_size.0 > 0,
        s.logical_size.1 > 0,
        tile_pixels(s.logical_size, (s.available_width, s.available_height), s.tile_size) < 1,
        s.logical_size.0 * p <= s.available_width * q,
        s.logical_size.1 * p <= s.available_height * q,
    ensures
        s.logical_size.0 * p < (s.displayed_size.0 + 1) * q,
        s.logical_size.1 * p < (s.displayed_size.1 + 1) * q,
{
    let lw = s.logical_size.0 as int;
    let lh = s.logical_size.1 as int;
    let aw = s.available_width as int;
    let ah = s.available_height as int;
    let dw = s.displayed_size.0 as int;
    let dh = s.displayed_size.1 as int;
    lemma_shown_within(s.logical_size, (s.available_width, s.available_height), s.tile_size);
    lemma_fitted_within(s.logical_size, (s.available_width, s.available_height));
    lemma_product_fits(s.available_width, s.logical_size.1);
    lemma_product_fits(s.available_height, s.logical_size.0);
    if aw == 0 || ah == 0 {
        assert(p == 0) by (nonlinear_arith)
            requires
                lw * p <= aw * q,
                lh * p <= ah * q,
                aw == 0 || ah == 0,
                lw > 0,
                lh > 0,
                0 <= p,
                0 < q,
        ;
        assert(lw * p == 0 && lh * p == 0 && (dw + 1) * q > 0 && (dh + 1) * q > 0)
            by (nonlinear_arith)
            requires
                p == 0,
                dw >= 0,
                dh >= 0,
                q > 0,
        ;
    } else if aw * lh <= ah * lw {
        lemma_floor_bounds(aw * lh, lw);
        assert(lw * p < (aw + 1) * q) by (nonlinear_arith)
            requires
                lw * p <= aw * q,
                0 < q,
        ;
        assert(lh * p < (dh + 1) * q) by (nonlinear_arith)
            requires
                lw * p <= aw * q,
                aw * lh < (dh + 1) * lw,
                lw > 0,
                lh > 0,
                0 <= p,
                0 < q,
                dh >= 0,
        ;
    } else {
        lemma_floor_bounds(ah * lw, lh);
        assert(lh * p < (ah + 1) * q) by (nonlinear_arith)
            requires
                lh * p <= ah * q,
                0 < q,
        ;
        assert(lw * p < (dw + 1) * q) by (nonlinear_arith)
            requires
                lh * p <= ah * q,
                ah * lw < (dw + 1) * lh,
                lw > 0,
                lh > 0,
                0 <= p,
                0 < q,
                dw >= 0,
        ;
    }
}

/// Where the scale is rounded to tiles, a tile takes the largest whole
/// number of pixels at which the content fits between the gutters: with
/// `pixels` pixels for the extent of a tile, content that fits has no more
/// pixels for a tile than the scaler gives it.
pub proof fn lemma_tile_scale_is_largest(s: ScreenScaler, pixels: int)
    requires
        s.wf(),
        0 <= pixels,
        s.logical_size.0 > 0,
        s.logical_size.1 > 0,
        tile_extent(s.tile_size) > 0,
        s.logical_size.0 * pixels <= s.available_width * tile_extent(s.tile_size),
        s.logical_size.1 * pixels <= s.available_height * tile_extent(s.tile_size),
    ensures
        pixels <= tile_pixels(
            s.logical_size,
            (s.available_width, s.available_height),
            s.tile_size,
        ),
        pixels >= 1 ==> s.spec_scale() == (
            tile_pixels(
                s.logical_size,
                (s.available_width, s.available_height),
                s.tile_size,
            ) as u64,
            tile_extent(s.tile_size) as u64,
        ),
{
    let lw = s.logical_size.0 as int;
    let lh = s.logical_size.1 as int;
    let aw = s.available_width as int;
    let ah = s.available_height as int;
    let t = tile_extent(s.tile_size) as int;
    assert(pixels <= (t * aw) / lw) by (nonlinear_arith)
        requires
            lw * pixels <= aw * t,
            lw > 0,
    ;
    assert(pixels <= (t * ah) / lh) by (nonlinear_arith)
        requires
            lh * pixels <= ah * t,
            lh > 0,
    ;
}

/// A resize depends on the window size, the scale factor and the tile size
/// alone: taking the same resize twice gives the state that taking it once
/// gives.
pub proof fn lemma_resize_idempotent(
    s: ScreenScaler,
    width: u32,
    height: u32,
    scale: u32,
    tile: (u32, u32),
)
    ensures
        s.resized(width, height, scale, tile).resized(width, height, scale, tile) == s.resized(
            width,
            height,
            scale,
            tile,
        ),
{
}

/// Two scalers with the same gutter and the same desired content size
/// arrive at the same state by the same resize, whatever they held before.
pub proof fn lemma_resize_forgets_history(
    a: ScreenScaler,
    b: ScreenScaler,
    width: u32,
    height: u32,
    scale: u32,
    tile: (u32, u32),
)
    requires
        a.desired_gutter == b.desired_gutter,
        a.desired_size == b.desired_size,
    ensures
        a.resized(width, height, scale, tile) == b.resized(width, height, scale, tile),
{
}

/// Growing the content to the available space shows it at its natural
/// size, and growing again changes nothing.
pub proof fn lemma_grown_fills(s: ScreenScaler)
    requires
        s.wf(),
    ensures
        s.grown().logical_size == (s.available_width, s.available_height),
        s.grown().displayed_size == if s.available_width == 0 || s.available_height == 0 {
            (0u32, 0u32)
        } else {
            (s.available_width, s.available_height)
        },
        s.grown().grown() == s.grown(),
        s.grown().wf(),
{
    let aw = s.available_width as int;
    let ah = s.available_height as int;
    let t = tile_extent(s.tile_size) as int;
    if aw > 0 && ah > 0 {
        assert((aw * ah) / aw == ah && (ah * aw) / ah == aw && aw * ah == ah * aw)
            by (nonlinear_arith)
            requires
                aw > 0,
                ah > 0,
        ;
        if t > 0 {
            assert((t * aw) / aw == t && (t * ah) / ah == t && (aw * t) / t == aw && (ah * t) / t
                == ah) by (nonlinear_arith)
                requires
                    aw > 0,
                    ah > 0,
                    t > 0,
            ;
        }
    }
}

} // verus!
