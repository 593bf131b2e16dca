//! Brings the cells of a text block onto a console or into a draw batch.

use vstd::prelude::*;
use crate::color::ColorPair;
use crate::console::{
    column_of,
    lemma_grid_cells,
    lemma_with_rect_cell,
    row_of,
    ConsoleView,
    GridConsole,
};
use crate::drawbatch::{DrawBatch, DrawCommand};
use crate::geometry::{at_least_zero, lemma_cell_index, Point, PointF, Rect};
use crate::textblock::{TextBlock, TextBlockView};

verus! {

/// How the glyphs of a block are placed on a free-position console.
#[derive(Clone, Copy, Debug, PartialEq, Eq)]
pub struct FancyPlacement {
    /// Added to the position of every glyph, in thousandths of a cell.
    pub offset: PointF,
    /// The layer of the glyphs.
    pub z_order: i32,
    /// The angle by which each glyph is turned, in thousandths of a radian.
    pub rotation: i32,
    /// The scale of each glyph, in thousandths.
    pub scale: PointF,
}

/// The largest offset, in either direction, that a placement may have.
pub const MAX_OFFSET: i64 = 0x4000_0000_0000_0000;

/// The smaller of two numbers.
pub open spec fn lesser(a: int, b: int) -> int {
    if a < b {
        a
    } else {
        b
    }
}

impl TextBlockView {
    /// The console after the first `upto` cells of the block, row by row,
    /// were set on it, each at its place from the block's origin.
    pub open spec fn rendered(self, console: ConsoleView, upto: int) -> ConsoleView
        decreases upto,
    {
        if upto <= 0 {
            console
        } else {
            self.rendered(console, upto - 1).with_cell(
                column_of(upto - 1, self.width as int) + self.x,
                row_of(upto - 1, self.width as int) + self.y,
                self.buffer[upto - 1],
            )
        }
    }

    /// The command that draws the cell at column `x` of row `y` of the
    /// block. On a character grid the cell goes to its place from the
    /// block's origin. Placed freely, it goes there in thousandths of a
    /// cell, moved on by the placement's offset and by the padding of the
    /// cells before it and of its own near side.
    pub open spec fn cell_command(self, x: int, y: int, fancy: Option<FancyPlacement>) -> DrawCommand {
        let tile = self.buffer[y * self.width + x];
        let color = ColorPair { fg: tile.fg, bg: tile.bg };
        match fancy {
            None => DrawCommand::SetCell {
                pos: Point { x: (x + self.x) as i32, y: (y + self.y) as i32 },
                color,
                glyph: tile.glyph,
            },
            Some(placement) => DrawCommand::SetFancy {
                position: PointF {
                    x: ((x + 1) * self.padding.x1 + x * self.padding.x2 + (x + self.x) * 1000
                        + placement.offset.x) as i64,
                    y: ((y + 1) * self.padding.y1 + y * self.padding.y2 + (y + self.y) * 1000
                        + placement.offset.y) as i64,
                },
                z_order: placement.z_order,
                rotation: placement.rotation,
                color,
                glyph: tile.glyph,
                scale: placement.scale,
            },
        }
    }

    /// The commands that draw the cells in columns `x1` up to `x2` of rows
    /// `y1` up to `y2`, row by row.
    pub open spec fn batch_commands(
        self,
        x1: int,
        y1: int,
        x2: int,
        y2: int,
        fancy: Option<FancyPlacement>,
    ) -> Seq<DrawCommand> {
        Seq::new(
            (at_least_zero(x2 - x1) * at_least_zero(y2 - y1)) as nat,
            |k: int|
                self.cell_command(
                    x1 + column_of(k, x2 - x1),
                    y1 + row_of(k, x2 - x1),
                    fancy,
                ),
        )
    }

    /// The cells of the block all have places on a grid.
    pub open spec fn places_fit(self) -> bool {
        self.x + self.width <= i32::MAX && self.y + self.height <= i32::MAX
    }
}

impl TextBlock {
    /// Sets every cell of the block on the console, at its place from the
    /// block's origin. Cells that fall outside the console are left out.
    pub fn render(&self, console: &mut GridConsole)
        ensures
            final(console)@ == self@.rendered(old(console)@, self@.buffer.len() as int),
            final(console)@.wf(),
    {
        proof {
            use_type_invariant(self);
            use_type_invariant(&*console);
        }
        let width: i32 = self.width();
        let height: i32 = self.height();
        let origin = self.get_origin();
        let ghost start = console@;
        let mut y: i32 = 0;
        while y < height
            invariant
                0 <= y <= height,
                width == self@.width,
                height == self@.height,
                origin == (Point { x: self@.x, y: self@.y }),
                self@.wf(),
                console@.wf(),
                console@ == self@.rendered(start, y * width),
            decreases height - y,
        {
            let mut x: i32 = 0;
            while x < width
                invariant
                    0 <= x <= width,
                    0 <= y < height,
                    width == self@.width,
                    height == self@.height,
                    origin == (Point { x: self@.x, y: self@.y }),
                    self@.wf(),
                    console@.wf(),
                    console@ == self@.rendered(start, y * width + x),
                decreases width - x,
            {
                proof {
                    lemma_grid_cells(width as int, height as int);
                    lemma_cell_index(x as int, y as int, width as int, height as int);
                }
                let tile = self.cell(x, y);
                let column: i64 = x as i64 + origin.x as i64;
                let row: i64 = y as i64 + origin.y as i64;
                console.fill_region(column, row, column + 1, row + 1, tile.fg, tile.bg, tile.glyph);
                x += 1;
            }
            proof {
                assert(y * width + width == (y + 1) * width) by (nonlinear_arith);
            }
            y += 1;
        }
        proof {
            assert(self@.buffer.len() == height * width) by (nonlinear_arith)
                requires
                    self@.buffer.len() == width * height,
            ;
        }
    }

    /// Adds the commands that set every cell of the block on a character
    /// grid, row by row.
    pub fn render_to_draw_batch(&self, draw_batch: &mut DrawBatch)
        requires
            self@.places_fit(),
        ensures
            final(draw_batch)@ == old(draw_batch)@ + self@.batch_commands(
                0,
                0,
                self@.width as int,
                self@.height as int,
                None,
            ),
    {
        let width: i32 = self.width();
        let height: i32 = self.height();
        self.append_cells(draw_batch, 0, 0, width, height, None);
    }

    /// Adds the commands that set the cells of the block inside `clip`,
    /// row by row. The rectangle is given in columns and rows of the block.
    pub fn render_to_draw_batch_clip(&self, draw_batch: &mut DrawBatch, clip: &Rect)
        requires
            self@.places_fit(),
        ensures
            final(draw_batch)@ == old(draw_batch)@ + self@.batch_commands(
                at_least_zero(clip.x1 as int),
                at_least_zero(clip.y1 as int),
                lesser(self@.width as int, clip.x2 as int),
                lesser(self@.height as int, clip.y2 as int),
                None,
            ),
    {
        let width: i32 = self.width();
        let height: i32 = self.height();
        let x1: i32 = if clip.x1 > 0 { clip.x1 } else { 0 };
        let y1: i32 = if clip.y1 > 0 { clip.y1 } else { 0 };
        let x2: i32 = if width < clip.x2 { width } else { clip.x2 };
        let y2: i32 = if height < clip.y2 { height } else { clip.y2 };
        self.append_cells(draw_batch, x1, y1, x2, y2, None);
    }

    /// Adds the commands that place every cell of the block freely, row by
    /// row: each at its place from the block's origin, moved on by the
    /// offset and by the padding, on one layer, turned and scaled alike.
    pub fn render_to_draw_batch_fancy(
        &self,
        draw_batch: &mut DrawBatch,
        offset: PointF,
        z_order: i32,
        rotation: i32,
        scale: PointF,
    )
        requires
            -MAX_OFFSET <= offset.x <= MAX_OFFSET,
            -MAX_OFFSET <= offset.y <= MAX_OFFSET,
        ensures
            final(draw_batch)@ == old(draw_batch)@ + self@.batch_commands(
                0,
                0,
                self@.width as int,
                self@.height as int,
                Some(FancyPlacement { offset, z_order, rotation, scale }),
            ),
    {
        let width: i32 = self.width();
        let height: i32 = self.height();
        self.append_cells(
            draw_batch,
            0,
            0,
            width,
            height,
            Some(FancyPlacement { offset, z_order, rotation, scale }),
        );
    }

    /// Adds the commands for the cells in columns `x1` up to `x2` of rows
    /// `y1` up to `y2`.
    fn append_cells(
        &self,
        draw_batch: &mut DrawBatch,
        x1: i32,
        y1: i32,
        x2: i32,
        y2: i32,
        fancy: Option<FancyPlacement>,
    )
        requires
            0 <= x1,
            0 <= y1,
            x2 <= self@.width,
            y2 <= self@.height,
            fancy is None ==> self@.places_fit(),
            fancy is Some ==> -MAX_OFFSET <= fancy->0.offset.x <= MAX_OFFSET && -MAX_OFFSET
                <= fancy->0.offset.y <= MAX_OFFSET,
        ensures
            final(draw_batch)@ == old(draw_batch)@ + self@.batch_commands(
                x1 as int,
                y1 as int,
                x2 as int,
                y2 as int,
                fancy,
            ),
    {
        proof {
            use_type_invariant(self);
        }
        let ghost start = draw_batch@;
        let ghost commands = self@.batch_commands(x1 as int, y1 as int, x2 as int, y2 as int, fancy);
        let ghost columns = at_least_zero(x2 - x1);
        let ghost rows = at_least_zero(y2 - y1);
        let origin = self.get_origin();
        let padding = self.get_padding();
        let mut y: i32 = y1;
        assert(draw_batch@ =~= start + commands.take(0));
        while y < y2
            invariant
                0 <= x1,
                0 <= y1 <= y,
                y - y1 <= rows,
                x2 <= self@.width,
                y2 <= self@.height,
                self@.wf(),
                fancy is None ==> self@.places_fit(),
                fancy is Some ==> -MAX_OFFSET <= fancy->0.offset.x <= MAX_OFFSET && -MAX_OFFSET
                    <= fancy->0.offset.y <= MAX_OFFSET,
                columns == at_least_zero(x2 - x1),
                rows == at_least_zero(y2 - y1),
                origin == (Point { x: self@.x, y: self@.y }),
                padding == self@.padding,
                commands == self@.batch_commands(x1 as int, y1 as int, x2 as int, y2 as int, fancy),
                draw_batch@ == start + commands.take((y - y1) * columns),
            decreases y2 - y,
        {
            let mut x: i32 = x1;
            proof {
                assert(0 <= (y - y1) * columns && (y - y1) * columns + columns <= rows * columns
                    && rows * columns == columns * rows) by (nonlinear_arith)
                    requires
                        0 <= y - y1 < rows,
                        0 <= columns,
                ;
            }
            while x < x2
                invariant
                    0 <= x1 <= x,
                    x - x1 <= columns,
                    0 <= y1 <= y < y2,
                    x2 <= self@.width,
                    y2 <= self@.height,
                    self@.wf(),
                    fancy is None ==> self@.places_fit(),
                    fancy is Some ==> -MAX_OFFSET <= fancy->0.offset.x <= MAX_OFFSET
                        && -MAX_OFFSET <= fancy->0.offset.y <= MAX_OFFSET,
                    columns == at_least_zero(x2 - x1),
                    rows == at_least_zero(y2 - y1),
                    origin == (Point { x: self@.x, y: self@.y }),
                    padding == self@.padding,
                    commands == self@.batch_commands(
                        x1 as int,
                        y1 as int,
                        x2 as int,
                        y2 as int,
                        fancy,
                    ),
                    0 <= (y - y1) * columns,
                    (y - y1) * columns + columns <= commands.len(),
                    draw_batch@ == start + commands.take((y - y1) * columns + (x - x1)),
                decreases x2 - x,
            {
                proof {
                    lemma_grid_cells(columns, rows);
                    lemma_cell_index(x - x1, y - y1, columns, rows);
                    lemma_cell_index(x as int, y as int, self@.width as int, self@.height as int);
                }
                let tile = self.cell(x, y);
                let color = ColorPair::new(tile.fg, tile.bg);
                match fancy {
                    None => {
                        draw_batch.set(Point::new(x + origin.x, y + origin.y), color, tile.glyph);
                    },
                    Some(placement) => {
                        let px: i64 = padded_position(
                            x,
                            origin.x,
                            padding.x1,
                            padding.x2,
                            placement.offset.x,
                        );
                        let py: i64 = padded_position(
                            y,
                            origin.y,
                            padding.y1,
                            padding.y2,
                            placement.offset.y,
                        );
                        draw_batch.set_fancy(
                            PointF::new(px, py),
                            placement.z_order,
                            placement.rotation,
                            placement.scale,
                            color,
                            tile.glyph,
                        );
                    },
                }
                proof {
                    let k = (y - y1) * columns + (x - x1);
                    assert(column_of(k, columns) == x - x1 && row_of(k, columns) == y - y1);
                    assert(commands[k] == self@.cell_command(x as int, y as int, fancy));
                    assert(commands.take(k + 1) =~= commands.take(k).push(commands[k]));
                    assert(draw_batch@ =~= start + commands.take(k + 1));
                }
                x += 1;
            }
            proof {
                assert((y - y1) * columns + columns == (y + 1 - y1) * columns) by (nonlinear_arith);
            }
            y += 1;
        }
        proof {
            assert(commands.len() == columns * rows);
            assert((y - y1) * columns == columns * rows) by (nonlinear_arith)
                requires
                    y - y1 == rows,
            ;
            assert(commands.take(commands.len() as int) =~= commands);
        }
    }
}

/// After the first `upto` cells of a block were set on a console, a cell
/// of the console holds the block's cell that stands on it, if that is one
/// of the first `upto`, and else what it held before.
pub proof fn lemma_rendered_upto(
    block: TextBlockView,
    console: ConsoleView,
    upto: int,
    x: int,
    y: int,
)
    requires
        block.wf(),
        console.tiles.len() == console.width * console.height,
        0 <= upto <= block.buffer.len(),
        0 <= x < console.width,
        0 <= y < console.height,
    ensures
        block.rendered(console, upto).width == console.width,
        block.rendered(console, upto).height == console.height,
        block.rendered(console, upto).tiles.len() == console.tiles.len(),
        block.rendered(console, upto).tiles[y * console.width + x] == if 0 <= x - block.x
            < block.width && 0 <= y - block.y < block.height && (y - block.y) * block.width + (x
            - block.x) < upto {
            block.buffer[(y - block.y) * block.width + (x - block.x)]
        } else {
            console.tiles[y * console.width + x]
        },
    decreases upto,
{
    if upto > 0 {
        let k = upto - 1;
        let before = block.rendered(console, k);
        lemma_rendered_upto(block, console, k, x, y);
        lemma_grid_cells(block.width as int, block.height as int);
        let cx = column_of(k, block.width as int) + block.x;
        let cy = row_of(k, block.width as int) + block.y;
        lemma_with_rect_cell(before, cx, cy, cx + 1, cy + 1, block.buffer[k], x, y);
        let bx = x - block.x;
        let by = y - block.y;
        if 0 <= bx < block.width && 0 <= by < block.height {
            lemma_cell_index(bx, by, block.width as int, block.height as int);
        }
    }
}

/// A block that was rendered shows on the console: every cell of the
/// console under the block holds the block's cell, and every other cell
/// holds what it held before.
pub proof fn lemma_rendered_cell(block: TextBlockView, console: ConsoleView, x: int, y: int)
    requires
        block.wf(),
        console.tiles.len() == console.width * console.height,
        0 <= x < console.width,
        0 <= y < console.height,
    ensures
        block.rendered(console, block.buffer.len() as int).tiles[y * console.width + x] == if 0
            <= x - block.x < block.width && 0 <= y - block.y < block.height {
            block.buffer[(y - block.y) * block.width + (x - block.x)]
        } else {
            console.tiles[y * console.width + x]
        },
{
    lemma_rendered_upto(block, console, block.buffer.len() as int, x, y);
    let bx = x - block.x;
    let by = y - block.y;
    if 0 <= bx < block.width && 0 <= by < block.height {
        lemma_cell_index(bx, by, block.width as int, block.height as int);
    }
}

/// Computes where a cell stands on one axis when placed freely, in
/// thousandths of a cell: its place from the origin, moved on by the offset
/// and by the padding of the cells before it and of its own near side.
fn padded_position(cell: i32, origin: i32, near: u16, far: u16, offset: i64) -> (position: i64)
    requires
        0 <= cell,
        -MAX_OFFSET <= offset <= MAX_OFFSET,
    ensures
        position == (cell + 1) * near + cell * far + (cell + origin) * 1000 + offset,
{
    let steps: i64 = cell as i64;
    assert(0 <= (steps + 1) * near <= 0x8000_0000 * 0xffff && 0 <= steps * far <= 0x8000_0000
        * 0xffff) by (nonlinear_arith)
        requires
            0 <= steps < 0x8000_0000,
            0 <= near <= 0xffff,
            0 <= far <= 0xffff,
    ;
    (steps + 1) * (near as i64) + steps * (far as i64) + (steps + origin as i64) * 1000 + offset
}

} // verus!
