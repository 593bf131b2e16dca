//! Boxes and bars drawn with the line characters of the code page.
//!
//! A box that starts at column `sx` and row `sy` with the extents `width`
//! and `height` has its corners in columns `sx` and `sx + width` and rows
//! `sy` and `sy + height`. Whatever part of a drawing lies outside the
//! console is left out.

use vstd::prelude::*;
use crate::codepage::{to_cp437, FontCharType, GLYPH_SPACE};
use crate::color::Rgba;
use crate::console::{column_of, lemma_grid_cells, row_of, ConsoleView, GridConsole};
use crate::fancy::{simple_tile, FancyConsole, FancyTile, FancyView};
use crate::geometry::{at_least_zero, clamped, truncated_quotient};
use crate::textblock::Tile;

verus! {

/// The glyphs that a frame is drawn with.
pub struct FrameGlyphs {
    pub top_left: FontCharType,
    pub top_right: FontCharType,
    pub bottom_left: FontCharType,
    pub bottom_right: FontCharType,
    pub horizontal: FontCharType,
    pub vertical: FontCharType,
}

/// The glyphs of a frame of single lines.
pub open spec fn single_frame() -> FrameGlyphs {
    FrameGlyphs {
        top_left: 218,
        top_right: 191,
        bottom_left: 192,
        bottom_right: 217,
        horizontal: 196,
        vertical: 179,
    }
}

/// The glyphs of a frame of double lines.
pub open spec fn double_frame() -> FrameGlyphs {
    FrameGlyphs {
        top_left: 201,
        top_right: 187,
        bottom_left: 200,
        bottom_right: 188,
        horizontal: 205,
        vertical: 186,
    }
}

/// The glyph of the filled part of a bar.
pub const GLYPH_BAR_FULL: FontCharType = 178;

/// The glyph of the empty part of a bar.
pub const GLYPH_BAR_EMPTY: FontCharType = 176;

/// The console after a frame was drawn: the four corners first, then the
/// two horizontal edges between them, then the two vertical edges.
pub open spec fn with_frame(
    console: ConsoleView,
    sx: int,
    sy: int,
    width: int,
    height: int,
    fg: Rgba,
    bg: Rgba,
    glyphs: FrameGlyphs,
) -> ConsoleView {
    console.with_cell(sx, sy, Tile { glyph: glyphs.top_left, fg, bg }).with_cell(
        sx + width,
        sy,
        Tile { glyph: glyphs.top_right, fg, bg },
    ).with_cell(sx, sy + height, Tile { glyph: glyphs.bottom_left, fg, bg }).with_cell(
        sx + width,
        sy + height,
        Tile { glyph: glyphs.bottom_right, fg, bg },
    ).with_rect(sx + 1, sy, sx + width, sy + 1, Tile { glyph: glyphs.horizontal, fg, bg }).with_rect(
        sx + 1,
        sy + height,
        sx + width,
        sy + height + 1,
        Tile { glyph: glyphs.horizontal, fg, bg },
    ).with_rect(sx, sy + 1, sx + 1, sy + height, Tile { glyph: glyphs.vertical, fg, bg }).with_rect(
        sx + width,
        sy + 1,
        sx + width + 1,
        sy + height,
        Tile { glyph: glyphs.vertical, fg, bg },
    )
}

/// The console after the inside of a box and its top and left edges were
/// set to `tile`.
pub open spec fn with_fill(
    console: ConsoleView,
    sx: int,
    sy: int,
    width: int,
    height: int,
    tile: Tile,
) -> ConsoleView {
    console.with_rect(sx, sy, sx + width, sy + height, tile)
}

/// Draws a frame with the given glyphs.
fn draw_frame(
    console: &mut GridConsole,
    sx: i32,
    sy: i32,
    width: i32,
    height: i32,
    fg: Rgba,
    bg: Rgba,
    glyphs: FrameGlyphs,
)
    ensures
        final(console)@ == with_frame(
            old(console)@,
            sx as int,
            sy as int,
            width as int,
            height as int,
            fg,
            bg,
            glyphs,
        ),
        final(console)@.wf(),
{
    let left: i64 = sx as i64;
    let top: i64 = sy as i64;
    let right: i64 = sx as i64 + width as i64;
    let bottom: i64 = sy as i64 + height as i64;
    console.fill_region(left, top, left + 1, top + 1, fg, bg, glyphs.top_left);
    console.fill_region(right, top, right + 1, top + 1, fg, bg, glyphs.top_right);
    console.fill_region(left, bottom, left + 1, bottom + 1, fg, bg, glyphs.bottom_left);
    console.fill_region(right, bottom, right + 1, bottom + 1, fg, bg, glyphs.bottom_right);
    console.fill_region(left + 1, top, right, top + 1, fg, bg, glyphs.horizontal);
    console.fill_region(left + 1, bottom, right, bottom + 1, fg, bg, glyphs.horizontal);
    console.fill_region(left, top + 1, left + 1, bottom, fg, bg, glyphs.vertical);
    console.fill_region(right, top + 1, right + 1, bottom, fg, bg, glyphs.vertical);
}

/// The glyphs of a frame of single lines.
fn single_frame_glyphs() -> (glyphs: FrameGlyphs)
    ensures
        glyphs == single_frame(),
{
    FrameGlyphs {
        top_left: to_cp437('\u{250C}'),
        top_right: to_cp437('\u{2510}'),
        bottom_left: to_cp437('\u{2514}'),
        bottom_right: to_cp437('\u{2518}'),
        horizontal: to_cp437('\u{2500}'),
        vertical: to_cp437('\u{2502}'),
    }
}

/// The glyphs of a frame of double lines.
fn double_frame_glyphs() -> (glyphs: FrameGlyphs)
    ensures
        glyphs == double_frame(),
{
    FrameGlyphs {
        top_left: to_cp437('\u{2554}'),
        top_right: to_cp437('\u{2557}'),
        bottom_left: to_cp437('\u{255A}'),
        bottom_right: to_cp437('\u{255D}'),
        horizontal: to_cp437('\u{2550}'),
        vertical: to_cp437('\u{2551}'),
    }
}

/// Draws a box of single lines and clears what it encloses.
pub fn draw_box(
    console: &mut GridConsole,
    sx: i32,
    sy: i32,
    width: i32,
    height: i32,
    fg: Rgba,
    bg: Rgba,
)
    ensures
        final(console)@ == with_frame(
            with_fill(
                old(console)@,
                sx as int,
                sy as int,
                width as int,
                height as int,
                Tile { glyph: GLYPH_SPACE, fg, bg },
            ),
            sx as int,
            sy as int,
            width as int,
            height as int,
            fg,
            bg,
            single_frame(),
        ),
        final(console)@.wf(),
{
    let clear = console.get_clear_glyph();
    console.fill_region(
        sx as i64,
        sy as i64,
        sx as i64 + width as i64,
        sy as i64 + height as i64,
        fg,
        bg,
        clear,
    );
    draw_frame(console, sx, sy, width, height, fg, bg, single_frame_glyphs());
}

/// Draws a box of single lines and leaves what it encloses as it is.
pub fn draw_hollow_box(
    console: &mut GridConsole,
    sx: i32,
    sy: i32,
    width: i32,
    height: i32,
    fg: Rgba,
    bg: Rgba,
)
    ensures
        final(console)@ == with_frame(
            old(console)@,
            sx as int,
            sy as int,
            width as int,
            height as int,
            fg,
            bg,
            single_frame(),
        ),
        final(console)@.wf(),
{
    draw_frame(console, sx, sy, width, height, fg, bg, single_frame_glyphs());
}

/// Draws a box of double lines and blanks what it encloses: spaces, white
/// on black, with the transparency of `fg`.
pub fn draw_box_double(
    console: &mut GridConsole,
    sx: i32,
    sy: i32,
    width: i32,
    height: i32,
    fg: Rgba,
    bg: Rgba,
)
    ensures
        final(console)@ == with_frame(
            with_fill(
                old(console)@,
                sx as int,
                sy as int,
                width as int,
                height as int,
                Tile {
                    glyph: GLYPH_SPACE,
                    fg: Rgba { r: 255, g: 255, b: 255, a: fg.a },
                    bg: Rgba { r: 0, g: 0, b: 0, a: fg.a },
                },
            ),
            sx as int,
            sy as int,
            width as int,
            height as int,
            fg,
            bg,
            double_frame(),
        ),
        final(console)@.wf(),
{
    console.fill_region(
        sx as i64,
        sy as i64,
        sx as i64 + width as i64,
        sy as i64 + height as i64,
        Rgba::from_u8(255, 255, 255, fg.a),
        Rgba::from_u8(0, 0, 0, fg.a),
        GLYPH_SPACE,
    );
    draw_frame(console, sx, sy, width, height, fg, bg, double_frame_glyphs());
}

/// Draws a box of double lines and leaves what it encloses as it is.
pub fn draw_hollow_box_double(
    console: &mut GridConsole,
    sx: i32,
    sy: i32,
    width: i32,
    height: i32,
    fg: Rgba,
    bg: Rgba,
)
    ensures
        final(console)@ == with_frame(
            old(console)@,
            sx as int,
            sy as int,
            width as int,
            height as int,
            fg,
            bg,
            double_frame(),
        ),
        final(console)@.wf(),
{
    draw_frame(console, sx, sy, width, height, fg, bg, double_frame_glyphs());
}

/// The glyphs that clear the inside of a free-position box, row by row:
/// one for each whole cell step from the corner at `sx` and `sy`
/// thousandths of a cell.
pub open spec fn fancy_fill(sx: int, sy: int, width: int, height: int, fg: Rgba, bg: Rgba) -> Seq<
    FancyTile,
> {
    Seq::new(
        (at_least_zero(width) * at_least_zero(height)) as nat,
        |k: int|
            simple_tile(
                (column_of(k, width) * 1000 + sx) as i64,
                (row_of(k, width) * 1000 + sy) as i64,
                fg,
                bg,
                GLYPH_SPACE,
            ),
    )
}

/// The four corner glyphs of a free-position box.
pub open spec fn fancy_corners(sx: int, sy: int, width: int, height: int, fg: Rgba, bg: Rgba) -> Seq<
    FancyTile,
> {
    seq![
        simple_tile(sx as i64, sy as i64, fg, bg, single_frame().top_left),
        simple_tile((sx + width * 1000) as i64, sy as i64, fg, bg, single_frame().top_right),
        simple_tile(sx as i64, (sy + height * 1000) as i64, fg, bg, single_frame().bottom_left),
        simple_tile(
            (sx + width * 1000) as i64,
            (sy + height * 1000) as i64,
            fg,
            bg,
            single_frame().bottom_right,
        ),
    ]
}

/// The glyphs of two opposite edges of a free-position box, between the
/// corners: for each step along the edges, the glyph of the first edge and
/// then that of the second. The edges run along the first axis if
/// `horizontal`, else along the second.
pub open spec fn fancy_edges(
    sx: int,
    sy: int,
    length: int,
    across: int,
    horizontal: bool,
    fg: Rgba,
    bg: Rgba,
) -> Seq<FancyTile> {
    Seq::new(
        (2 * at_least_zero(length - 1)) as nat,
        |k: int|
            {
                let along = (k / 2 + 1) * 1000;
                let far = if k % 2 == 0 {
                    0
                } else {
                    across * 1000
                };
                if horizontal {
                    simple_tile(
                        (sx + along) as i64,
                        (sy + far) as i64,
                        fg,
                        bg,
                        single_frame().horizontal,
                    )
                } else {
                    simple_tile(
                        (sx + far) as i64,
                        (sy + along) as i64,
                        fg,
                        bg,
                        single_frame().vertical,
                    )
                }
            },
    )
}

/// The glyphs of a free-position box in the order in which they are
/// placed: the filling, the corners, the horizontal edges, the vertical
/// edges.
pub open spec fn fancy_box(sx: int, sy: int, width: int, height: int, fg: Rgba, bg: Rgba) -> Seq<
    FancyTile,
> {
    fancy_fill(sx, sy, width, height, fg, bg) + fancy_corners(sx, sy, width, height, fg, bg)
        + fancy_edges(sx, sy, width, height, true, fg, bg) + fancy_edges(
        sx,
        sy,
        height,
        width,
        false,
        fg,
        bg,
    )
}

/// Places the glyphs of two opposite edges of a box.
fn draw_fancy_edges(
    console: &mut FancyConsole,
    sx: i32,
    sy: i32,
    length: i32,
    across: i32,
    horizontal: bool,
    fg: Rgba,
    bg: Rgba,
)
    ensures
        final(console)@ == (FancyView {
            tiles: old(console)@.tiles + fancy_edges(
                sx as int,
                sy as int,
                length as int,
                across as int,
                horizontal,
                fg,
                bg,
            ),
            dirty: old(console)@.dirty || length > 1,
            ..old(console)@
        }),
        final(console)@.wf(),
{
    proof {
        use_type_invariant(&*console);
    }
    let glyphs = single_frame_glyphs();
    let ghost start = console@;
    let ghost edges = fancy_edges(
        sx as int,
        sy as int,
        length as int,
        across as int,
        horizontal,
        fg,
        bg,
    );
    let far: i64 = across as i64 * 1000;
    let mut step: i32 = 1;
    assert(console@.tiles =~= start.tiles + edges.take(0));
    while step < length
        invariant
            1 <= step,
            step <= length || step == 1,
            far == across * 1000,
            glyphs == single_frame(),
            edges == fancy_edges(
                sx as int,
                sy as int,
                length as int,
                across as int,
                horizontal,
                fg,
                bg,
            ),
            console@ == (FancyView {
                tiles: start.tiles + edges.take(2 * (step - 1)),
                dirty: start.dirty || step > 1,
                ..start
            }),
        decreases length - step,
    {
        let along: i64 = step as i64 * 1000;
        if horizontal {
            console.set_fancy_simple(sx as i64 + along, sy as i64, fg, bg, glyphs.horizontal);
            console.set_fancy_simple(
                sx as i64 + along,
                sy as i64 + far,
                fg,
                bg,
                glyphs.horizontal,
            );
        } else {
            console.set_fancy_simple(sx as i64, sy as i64 + along, fg, bg, glyphs.vertical);
            console.set_fancy_simple(sx as i64 + far, sy as i64 + along, fg, bg, glyphs.vertical);
        }
        proof {
            let k = 2 * (step - 1);
            assert(edges.take(k + 2) =~= edges.take(k).push(edges[k]).push(edges[k + 1]));
            assert(console@.tiles =~= start.tiles + edges.take(k + 2));
        }
        step += 1;
    }
    proof {
        if length < 1 {
            assert(edges.len() == 0);
            assert(edges.take(0) =~= edges);
        } else {
            assert(step == length);
            assert(edges.len() == 2 * (step - 1));
            assert(edges.take(2 * (step - 1)) =~= edges);
        }
    }
}

/// Draws a box of single lines on a free-position console and clears what
/// it encloses. The box starts at `sx` and `sy` thousandths of a cell; its
/// glyphs stand whole cells apart.
pub fn draw_box_fancy(
    console: &mut FancyConsole,
    sx: i32,
    sy: i32,
    width: i32,
    height: i32,
    fg: Rgba,
    bg: Rgba,
)
    ensures
        final(console)@ == (FancyView {
            tiles: old(console)@.tiles + fancy_box(
                sx as int,
                sy as int,
                width as int,
                height as int,
                fg,
                bg,
            ),
            dirty: true,
            ..old(console)@
        }),
        final(console)@.wf(),
{
    let ghost start = console@;
    let ghost fill = fancy_fill(sx as int, sy as int, width as int, height as int, fg, bg);
    let clear = console.get_clear_glyph();
    let mut y: i32 = 0;
    assert(console@.tiles =~= start.tiles + fill.take(0));
    while y < height
        invariant
            0 <= y,
            y <= at_least_zero(height as int),
            clear == GLYPH_SPACE,
            fill == fancy_fill(sx as int, sy as int, width as int, height as int, fg, bg),
            console@ == (FancyView {
                tiles: start.tiles + fill.take(y * at_least_zero(width as int)),
                dirty: start.dirty || (y > 0 && width > 0),
                ..start
            }),
        decreases height - y,
    {
        let mut x: i32 = 0;
        proof {
            lemma_rows(y as int, height as int, at_least_zero(width as int));
        }
        while x < width
            invariant
                0 <= x,
                x <= at_least_zero(width as int),
                0 <= y < height,
                clear == GLYPH_SPACE,
                fill == fancy_fill(sx as int, sy as int, width as int, height as int, fg, bg),
                console@ == (FancyView {
                    tiles: start.tiles + fill.take(y * at_least_zero(width as int) + x),
                    dirty: start.dirty || ((y > 0 || x > 0) && width > 0),
                    ..start
                }),
            decreases width - x,
        {
            proof {
                lemma_grid_cells(width as int, height as int);
                crate::geometry::lemma_cell_index(
                    x as int,
                    y as int,
                    width as int,
                    height as int,
                );
            }
            console.set_fancy_simple(
                x as i64 * 1000 + sx as i64,
                y as i64 * 1000 + sy as i64,
                fg,
                bg,
                clear,
            );
            proof {
                let k = y * width + x;
                assert(fill.take(k + 1) =~= fill.take(k).push(fill[k]));
                assert(console@.tiles =~= start.tiles + fill.take(k + 1));
            }
            x += 1;
        }
        proof {
            let columns = at_least_zero(width as int);
            assert(y * columns + columns == (y + 1) * columns) by (nonlinear_arith);
            if width > 0 {
                assert(x == width);
            } else {
                assert(x == 0 && columns == 0);
            }
            assert(y * columns + x == (y + 1) * columns);
        }
        y += 1;
    }
    proof {
        let columns = at_least_zero(width as int);
        let rows = at_least_zero(height as int);
        assert(fill.len() == columns * rows);
        if height > 0 {
            assert(y == height);
            assert(columns * rows == y * columns) by (nonlinear_arith)
                requires
                    rows == y,
            ;
            assert(fill.take(y * columns) =~= fill);
        } else {
            assert(y == 0);
            assert(columns * rows == 0 && y * columns == 0) by (nonlinear_arith)
                requires
                    rows == 0,
                    y == 0,
            ;
            assert(fill.take(0) =~= fill);
        }
    }
    let glyphs = single_frame_glyphs();
    let right: i64 = sx as i64 + width as i64 * 1000;
    let bottom: i64 = sy as i64 + height as i64 * 1000;
    let ghost filled = console@.tiles;
    console.set_fancy_simple(sx as i64, sy as i64, fg, bg, glyphs.top_left);
    console.set_fancy_simple(right, sy as i64, fg, bg, glyphs.top_right);
    console.set_fancy_simple(sx as i64, bottom, fg, bg, glyphs.bottom_left);
    console.set_fancy_simple(right, bottom, fg, bg, glyphs.bottom_right);
    assert(console@.tiles =~= filled + fancy_corners(
        sx as int,
        sy as int,
        width as int,
        height as int,
        fg,
        bg,
    ));
    draw_fancy_edges(console, sx, sy, width, height, true, fg, bg);
    draw_fancy_edges(console, sx, sy, height, width, false, fg, bg);
    assert(console@.tiles =~= start.tiles + fancy_box(
        sx as int,
        sy as int,
        width as int,
        height as int,
        fg,
        bg,
    ));
}

/// The cells of the first `y` rows of a grid are among those of all its
/// rows.
proof fn lemma_rows(y: int, height: int, width: int)
    requires
        0 <= y < height,
        0 <= width,
    ensures
        0 <= y * width,
        y * width + width <= at_least_zero(height) * width,
{
    assert(0 <= y * width && y * width + width <= height * width) by (nonlinear_arith)
        requires
            0 <= y < height,
            0 <= width,
    ;
}

/// How many cells of a bar of `length` cells are filled when `n` of `max`
/// is reached: the cells up to and including the one at `n * length / max`,
/// so at least one as long as `n` and `max` have the same sign.
pub open spec fn bar_filled(length: int, n: int, max: int) -> int {
    clamped(truncated_quotient(n * length, max) + 1, 0, if length > 0 {
        length
    } else {
        0
    })
}

/// How many cells at the top of an upright bar of `length` cells stay empty
/// when `n` of `max` is reached.
pub open spec fn bar_empty(length: int, n: int, max: int) -> int {
    clamped(length - truncated_quotient(n * length, max), 0, if length > 0 {
        length
    } else {
        0
    })
}

/// Computes the quotient of `a * b` by `c`, rounded towards zero.
fn scaled_part(a: i32, b: i32, c: i32) -> (q: i64)
    ensures
        q == truncated_quotient(a as int * b as int, c as int),
        -0x4000_0000_0000_0000 <= q <= 0x4000_0000_0000_0000,
{
    if c == 0 {
        return 0;
    }
    assert(-0x4000_0000_0000_0000 <= a as int * b as int <= 0x4000_0000_0000_0000)
        by (nonlinear_arith)
        requires
            -0x8000_0000 <= a as int <= 0x7fff_ffff,
            -0x8000_0000 <= b as int <= 0x7fff_ffff,
    ;
    let product: i64 = (a as i64) * (b as i64);
    let magnitude: u64 = if product < 0 {
        (-product) as u64
    } else {
        product as u64
    };
    let divisor: u64 = if c < 0 {
        (-(c as i64)) as u64
    } else {
        c as u64
    };
    let quotient: u64 = magnitude / divisor;
    assert(quotient <= magnitude) by (nonlinear_arith)
        requires
            quotient == magnitude / divisor,
            divisor >= 1,
    ;
    if (product < 0) == (c < 0) {
        quotient as i64
    } else {
        -(quotient as i64)
    }
}

/// Draws a horizontal progress bar of `width` cells from column `sx` of row
/// `sy` to the right, filled from the left as far as `n` of `max` reaches.
pub fn draw_bar_horizontal(
    console: &mut GridConsole,
    sx: i32,
    sy: i32,
    width: i32,
    n: i32,
    max: i32,
    fg: Rgba,
    bg: Rgba,
)
    ensures
        final(console)@ == old(console)@.with_rect(
            sx as int,
            sy as int,
            sx + bar_filled(width as int, n as int, max as int),
            sy + 1,
            Tile { glyph: GLYPH_BAR_FULL, fg, bg },
        ).with_rect(
            sx + bar_filled(width as int, n as int, max as int),
            sy as int,
            sx + width,
            sy + 1,
            Tile { glyph: GLYPH_BAR_EMPTY, fg, bg },
        ),
        final(console)@.wf(),
{
    let reach: i64 = scaled_part(n, width, max) + 1;
    let length: i64 = if width > 0 { width as i64 } else { 0 };
    let filled: i64 = if reach < 0 { 0 } else if reach > length { length } else { reach };
    let full = to_cp437('\u{2593}');
    let empty = to_cp437('\u{2591}');
    let left: i64 = sx as i64;
    let top: i64 = sy as i64;
    console.fill_region(left, top, left + filled, top + 1, fg, bg, full);
    console.fill_region(left + filled, top, left + width as i64, top + 1, fg, bg, empty);
}

/// Draws an upright progress bar of `height` cells from row `sy` of column
/// `sx` downwards, filled from the bottom as far as `n` of `max` reaches.
pub fn draw_bar_vertical(
    console: &mut GridConsole,
    sx: i32,
    sy: i32,
    height: i32,
    n: i32,
    max: i32,
    fg: Rgba,
    bg: Rgba,
)
    ensures
        final(console)@ == old(console)@.with_rect(
            sx as int,
            sy as int,
            sx + 1,
            sy + bar_empty(height as int, n as int, max as int),
            Tile { glyph: GLYPH_BAR_EMPTY, fg, bg },
        ).with_rect(
            sx as int,
            sy + bar_empty(height as int, n as int, max as int),
            sx + 1,
            sy + height,
            Tile { glyph: GLYPH_BAR_FULL, fg, bg },
        ),
        final(console)@.wf(),
{
    let reach: i64 = height as i64 - scaled_part(n, height, max);
    let length: i64 = if height > 0 { height as i64 } else { 0 };
    let unfilled: i64 = if reach < 0 { 0 } else if reach > length { length } else { reach };
    let full = to_cp437('\u{2593}');
    let empty = to_cp437('\u{2591}');
    let left: i64 = sx as i64;
    let top: i64 = sy as i64;
    console.fill_region(left, top, left + 1, top + unfilled, fg, bg, empty);
    console.fill_region(left, top + unfilled, left + 1, top + height as i64, fg, bg, full);
}

} // verus!
