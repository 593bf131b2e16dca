//! The character-grid console: a grid of cells and the quads that draw it.
//!
//! The cells are kept row by row, the top row first. Changing a cell marks
//! the console dirty. Rebuilding the geometry turns every cell into one quad
//! and clears the mark; the quads are built aside and put in place whole, so
//! that whoever draws sees the geometry of the last rebuild that finished
//! and never a part of one.

use vstd::prelude::*;
use vstd::arithmetic::div_mod::{lemma_fundamental_div_mod, lemma_fundamental_div_mod_converse};
use crate::codepage::{FontCharType, GLYPH_SPACE};
use crate::color::Rgba;
use crate::textblock::Tile;

verus! {

/// The largest number of cells that a console can hold.
pub const MAX_CELLS: u32 = 0x7fff_ffff;

/// The number of glyphs in one row of a font's atlas.
pub const ATLAS_COLUMNS: u16 = 16;

/// One quad of a console's geometry: where it stands, in logical pixels from
/// the top left, how large it is, which cell of the font atlas it shows and
/// in which colors.
#[derive(Clone, Copy, Debug, PartialEq, Eq)]
pub struct Quad {
    pub x: u64,
    pub y: u64,
    pub width: u32,
    pub height: u32,
    pub atlas_column: u16,
    pub atlas_row: u16,
    pub fg: Rgba,
    pub bg: Rgba,
}

/// The column of the cell with index `p` in a grid of `width` columns.
pub open spec fn column_of(p: int, width: int) -> int {
    p % width
}

/// The row of the cell with index `p` in a grid of `width` columns.
pub open spec fn row_of(p: int, width: int) -> int {
    p / width
}

/// The quad that draws the cell with index `p` in a grid of `width` columns
/// with tiles of size `tile_size`.
pub open spec fn cell_quad(tile: Tile, p: int, width: int, tile_size: (u32, u32)) -> Quad {
    Quad {
        x: (column_of(p, width) * tile_size.0) as u64,
        y: (row_of(p, width) * tile_size.1) as u64,
        width: tile_size.0,
        height: tile_size.1,
        atlas_column: (tile.glyph % ATLAS_COLUMNS) as u16,
        atlas_row: (tile.glyph / ATLAS_COLUMNS) as u16,
        fg: tile.fg,
        bg: tile.bg,
    }
}

/// The geometry of a grid of cells: one quad for each cell, in the order of
/// the cells.
pub open spec fn grid_quads(tiles: Seq<Tile>, width: int, tile_size: (u32, u32)) -> Seq<Quad> {
    Seq::new(tiles.len(), |p: int| cell_quad(tiles[p], p, width, tile_size))
}

/// The cell that a console is cleared to.
pub open spec fn clear_tile() -> Tile {
    Tile { glyph: GLYPH_SPACE, fg: Rgba::spec_white(), bg: Rgba::spec_black() }
}

/// A character-grid console as a mathematical value.
pub ghost struct ConsoleView {
    pub width: u32,
    pub height: u32,
    pub tiles: Seq<Tile>,
    pub dirty: bool,
    pub geometry: Seq<Quad>,
    /// The tile size that the geometry was built for.
    pub built_for: (u32, u32),
    /// The numbers of columns and rows when the geometry was built.
    pub built_size: (u32, u32),
}

impl ConsoleView {
    /// The console has one cell for each column of each row. Its geometry
    /// is whole: it has one quad for each cell that the console had when it
    /// was built. Unless the console is dirty, the geometry is that of its
    /// cells as they are.
    pub open spec fn wf(self) -> bool {
        &&& self.width * self.height <= MAX_CELLS
        &&& self.tiles.len() == self.width * self.height
        &&& self.geometry.len() == self.built_size.0 * self.built_size.1
        &&& !self.dirty ==> self.built_size == (self.width, self.height)
        &&& !self.dirty ==> self.geometry == grid_quads(
            self.tiles,
            self.width as int,
            self.built_for,
        )
    }

    /// Whether the rectangle of columns `x1` up to `x2` and rows `y1` up to
    /// `y2` holds a cell of the console.
    pub open spec fn touches(self, x1: int, y1: int, x2: int, y2: int) -> bool {
        &&& x1 < x2
        &&& y1 < y2
        &&& x1 < self.width
        &&& y1 < self.height
        &&& 0 < x2
        &&& 0 < y2
        &&& 0 < self.width
        &&& 0 < self.height
    }

    /// Whether the cell with index `p` lies in the rectangle.
    pub open spec fn cell_in(self, p: int, x1: int, y1: int, x2: int, y2: int) -> bool {
        &&& x1 <= column_of(p, self.width as int) < x2
        &&& y1 <= row_of(p, self.width as int) < y2
    }

    /// The console after every cell in the rectangle of columns `x1` up to
    /// `x2` and rows `y1` up to `y2` was set to `tile`. What lies outside
    /// the console is left out. The console is dirty afterwards if a cell
    /// was set.
    pub open spec fn with_rect(self, x1: int, y1: int, x2: int, y2: int, tile: Tile) -> ConsoleView {
        ConsoleView {
            tiles: Seq::new(
                self.tiles.len(),
                |p: int|
                    if self.cell_in(p, x1, y1, x2, y2) {
                        tile
                    } else {
                        self.tiles[p]
                    },
            ),
            dirty: self.dirty || self.touches(x1, y1, x2, y2),
            ..self
        }
    }

    /// The console after the cell at column `x` of row `y` was set.
    pub open spec fn with_cell(self, x: int, y: int, tile: Tile) -> ConsoleView {
        self.with_rect(x, y, x + 1, y + 1, tile)
    }

    /// The console after it took a new size: every cell cleared, and dirty.
    pub open spec fn resized(self, width: u32, height: u32) -> ConsoleView {
        ConsoleView {
            width,
            height,
            tiles: Seq::new((width * height) as nat, |p: int| clear_tile()),
            dirty: true,
            ..self
        }
    }

    /// The console after its geometry was rebuilt for tiles of size
    /// `tile_size`. A console that is not dirty stays as it is.
    pub open spec fn rebuilt(self, tile_size: (u32, u32)) -> ConsoleView {
        if self.dirty {
            ConsoleView {
                dirty: false,
                geometry: grid_quads(self.tiles, self.width as int, tile_size),
                built_for: tile_size,
                built_size: (self.width, self.height),
                ..self
            }
        } else {
            self
        }
    }
}

/// The cells of a console with their arrangement.
struct CellGrid {
    width: u32,
    height: u32,
    tiles: Vec<Tile>,
}

/// The quads of a rebuild, with what they were built from.
struct Geometry {
    quads: Vec<Quad>,
    tile_size: (u32, u32),
    size: (u32, u32),
}

/// A grid of character cells with the geometry that draws it.
pub struct GridConsole {
    grid: CellGrid,
    dirty: bool,
    built: Geometry,
}

impl View for GridConsole {
    type V = ConsoleView;

    closed spec fn view(&self) -> ConsoleView {
        ConsoleView {
            width: self.grid.width,
            height: self.grid.height,
            tiles: self.grid.tiles@,
            dirty: self.dirty,
            geometry: self.built.quads@,
            built_for: self.built.tile_size,
            built_size: self.built.size,
        }
    }
}

impl GridConsole {
    /// What holds of every value of this type.
    #[verifier::type_invariant]
    pub open spec fn well_formed(self) -> bool {
        self@.wf()
    }

    /// Creates a console of `width` by `height` cleared cells. It is dirty:
    /// its geometry is yet to be built.
    pub fn new(width: u32, height: u32) -> (console: GridConsole)
        requires
            width * height <= MAX_CELLS,
        ensures
            console@ == (ConsoleView {
                width,
                height,
                tiles: Seq::new((width * height) as nat, |p: int| clear_tile()),
                dirty: true,
                geometry: Seq::empty(),
                built_for: (0, 0),
                built_size: (0, 0),
            }),
            console@.wf(),
    {
        let tiles = cleared_tiles(width, height);
        GridConsole {
            grid: CellGrid { width, height, tiles },
            dirty: true,
            built: Geometry { quads: Vec::new(), tile_size: (0, 0), size: (0, 0) },
        }
    }

    /// The numbers of columns and rows.
    pub fn get_char_size(&self) -> (size: (u32, u32))
        ensures
            size == (self@.width, self@.height),
            self@.wf(),
    {
        proof {
            use_type_invariant(self);
        }
        (self.grid.width, self.grid.height)
    }

    /// The glyph of a cleared cell.
    pub fn get_clear_glyph(&self) -> (glyph: FontCharType)
        ensures
            glyph == GLYPH_SPACE,
    {
        GLYPH_SPACE
    }

    /// Whether a cell changed since the geometry was last rebuilt.
    pub fn is_dirty(&self) -> (dirty: bool)
        ensures
            dirty == self@.dirty,
    {
        self.dirty
    }

    /// The cell at column `x` of row `y`, if the console has such a cell.
    pub fn tile(&self, x: i32, y: i32) -> (t: Option<Tile>)
        ensures
            self@.wf(),
            t == if 0 <= x < self@.width && 0 <= y < self@.height {
                Some(self@.tiles[y * self@.width + x])
            } else {
                None
            },
    {
        proof {
            use_type_invariant(self);
        }
        if 0 <= x && (x as i64) < self.grid.width as i64 && 0 <= y && (y as i64) < self.grid.height as i64 {
            proof {
                crate::geometry::lemma_cell_index(
                    x as int,
                    y as int,
                    self.grid.width as int,
                    self.grid.height as int,
                );
            }
            let idx: usize = ((y as u64) * (self.grid.width as u64) + (x as u64)) as usize;
            Some(self.grid.tiles[idx])
        } else {
            None
        }
    }

    /// Sets the cell at column `x` of row `y`. A position outside the
    /// console is ignored.
    pub fn set(&mut self, x: i32, y: i32, fg: Rgba, bg: Rgba, glyph: FontCharType)
        ensures
            final(self)@ == old(self)@.with_cell(x as int, y as int, Tile { glyph, fg, bg }),
            final(self)@.wf(),
    {
        self.fill_region(x as i64, y as i64, x as i64 + 1, y as i64 + 1, fg, bg, glyph);
    }

    /// Sets every cell in the rectangle of columns `x1` up to `x2` and rows
    /// `y1` up to `y2`. What lies outside the console is ignored.
    pub fn fill_region(
        &mut self,
        x1: i64,
        y1: i64,
        x2: i64,
        y2: i64,
        fg: Rgba,
        bg: Rgba,
        glyph: FontCharType,
    )
        ensures
            final(self)@ == old(self)@.with_rect(
                x1 as int,
                y1 as int,
                x2 as int,
                y2 as int,
                Tile { glyph, fg, bg },
            ),
            final(self)@.wf(),
    {
        proof {
            use_type_invariant(&*self);
            lemma_grid_cells(self.grid.width as int, self.grid.height as int);
        }
        let ghost start = self@;
        let tile = Tile { glyph, fg, bg };
        let width: i64 = self.grid.width as i64;
        let height: i64 = self.grid.height as i64;
        let left: i64 = if x1 > 0 { x1 } else { 0 };
        let top: i64 = if y1 > 0 { y1 } else { 0 };
        let right: i64 = if x2 < width { x2 } else { width };
        let bottom: i64 = if y2 < height { y2 } else { height };
        if left >= right || top >= bottom {
            assert(self@.tiles =~= start.with_rect(
                x1 as int,
                y1 as int,
                x2 as int,
                y2 as int,
                tile,
            ).tiles);
            return ;
        }
        self.dirty = true;
        let mut y: i64 = top;
        assert(self@.tiles =~= start.with_rect(left as int, top as int, right as int, y as int, tile).tiles);
        while y < bottom
            invariant
                0 <= left < right <= width,
                0 <= top <= y <= bottom <= height,
                width == start.width,
                height == start.height,
                start.wf(),
                self@ == (ConsoleView {
                    dirty: true,
                    ..start.with_rect(left as int, top as int, right as int, y as int, tile)
                }),
            decreases bottom - y,
        {
            let ghost rows = self@.tiles;
            let mut x: i64 = left;
            assert(rows =~= (ConsoleView { tiles: rows, ..start }).with_rect(
                left as int,
                y as int,
                x as int,
                y + 1,
                tile,
            ).tiles);
            while x < right
                invariant
                    0 <= left <= x <= right <= width,
                    0 <= top <= y < bottom <= height,
                    width == start.width,
                    height == start.height,
                    start.wf(),
                    rows.len() == start.tiles.len(),
                    self@ == (ConsoleView {
                        dirty: true,
                        tiles: (ConsoleView { tiles: rows, ..start }).with_rect(
                            left as int,
                            y as int,
                            x as int,
                            y + 1,
                            tile,
                        ).tiles,
                        ..start
                    }),
                decreases right - x,
            {
                proof {
                    lemma_grid_cells(width as int, height as int);
                    crate::geometry::lemma_cell_index(
                        x as int,
                        y as int,
                        width as int,
                        height as int,
                    );
                }
                let idx: usize = (y * width + x) as usize;
                self.grid.tiles[idx] = tile;
                x += 1;
                assert(self@.tiles =~= (ConsoleView { tiles: rows, ..start }).with_rect(
                    left as int,
                    y as int,
                    x as int,
                    y + 1,
                    tile,
                ).tiles);
            }
            y += 1;
            assert(self@.tiles =~= start.with_rect(
                left as int,
                top as int,
                right as int,
                y as int,
                tile,
            ).tiles);
        }
        assert(self@.tiles =~= start.with_rect(
            x1 as int,
            y1 as int,
            x2 as int,
            y2 as int,
            tile,
        ).tiles);
    }

    /// Marks the console dirty, so that its geometry is rebuilt and handed
    /// to the device anew before it is drawn again.
    pub fn invalidate(&mut self)
        ensures
            final(self)@ == (ConsoleView { dirty: true, ..old(self)@ }),
            final(self)@.wf(),
    {
        proof {
            use_type_invariant(&*self);
        }
        self.dirty = true;
    }

    /// Clears every cell.
    pub fn cls(&mut self)
        ensures
            final(self)@ == old(self)@.resized(old(self)@.width, old(self)@.height),
            final(self)@.wf(),
    {
        proof {
            use_type_invariant(&*self);
        }
        let tiles = cleared_tiles(self.grid.width, self.grid.height);
        self.dirty = true;
        self.grid = CellGrid { width: self.grid.width, height: self.grid.height, tiles };
    }

    /// Gives the console `width` by `height` cells, all cleared, and marks
    /// it dirty.
    pub fn set_char_size(&mut self, width: u32, height: u32)
        requires
            width * height <= MAX_CELLS,
        ensures
            final(self)@ == old(self)@.resized(width, height),
            final(self)@.wf(),
    {
        proof {
            use_type_invariant(&*self);
        }
        let tiles = cleared_tiles(width, height);
        self.dirty = true;
        self.grid = CellGrid { width, height, tiles };
    }

    /// Rebuilds the geometry for tiles of size `tile_size` if the console
    /// is dirty: one quad for each cell. The console is clean afterwards.
    /// On a clean console this does nothing.
    pub fn rebuild_geometry(&mut self, tile_size: (u32, u32))
        ensures
            final(self)@ == old(self)@.rebuilt(tile_size),
            final(self)@.wf(),
            !final(self)@.dirty,
            final(self)@.geometry.len() == final(self)@.width * final(self)@.height,
    {
        proof {
            use_type_invariant(&*self);
            lemma_grid_cells(self.grid.width as int, self.grid.height as int);
        }
        if !self.dirty {
            return ;
        }
        let mut quads: Vec<Quad> = Vec::new();
        let mut p: usize = 0;
        while p < self.grid.tiles.len()
            invariant
                p <= self.grid.tiles.len(),
                self@ == old(self)@,
                self@.wf(),
                quads@.len() == p,
                forall|k: int|
                    0 <= k < p ==> quads@[k] == cell_quad(
                        #[trigger] self@.tiles[k],
                        k,
                        self@.width as int,
                        tile_size,
                    ),
            decreases self.grid.tiles.len() - p,
        {
            proof {
                lemma_grid_cells(self.grid.width as int, self.grid.height as int);
            }
            assert(self.grid.width > 0) by (nonlinear_arith)
                requires
                    0 <= p < self.grid.width * self.grid.height,
            ;
            let tile = self.grid.tiles[p];
            let column: u64 = (p as u64) % (self.grid.width as u64);
            let row: u64 = (p as u64) / (self.grid.width as u64);
            assert(column * tile_size.0 <= 0xffff_ffff * 0xffff_ffff && row * tile_size.1
                <= 0xffff_ffff * 0xffff_ffff) by (nonlinear_arith)
                requires
                    0 <= column <= 0xffff_ffff,
                    0 <= row <= 0xffff_ffff,
                    0 <= tile_size.0 <= 0xffff_ffff,
                    0 <= tile_size.1 <= 0xffff_ffff,
            ;
            quads.push(
                Quad {
                    x: column * (tile_size.0 as u64),
                    y: row * (tile_size.1 as u64),
                    width: tile_size.0,
                    height: tile_size.1,
                    atlas_column: tile.glyph % ATLAS_COLUMNS,
                    atlas_row: tile.glyph / ATLAS_COLUMNS,
                    fg: tile.fg,
                    bg: tile.bg,
                },
            );
            p += 1;
        }
        assert(quads@ =~= grid_quads(self@.tiles, self@.width as int, tile_size));
        self.built = Geometry {
            quads,
            tile_size,
            size: (self.grid.width, self.grid.height),
        };
        self.dirty = false;
    }

    /// The geometry of the last rebuild: always a whole one, with a quad
    /// for each cell that the console had then. On a clean console it is
    /// the geometry of the cells as they are.
    pub fn geometry(&self) -> (quads: &Vec<Quad>)
        ensures
            quads@ == self@.geometry,
            quads@.len() == self@.built_size.0 * self@.built_size.1,
            !self@.dirty ==> quads@ == grid_quads(
                self@.tiles,
                self@.width as int,
                self@.built_for,
            ) && quads@.len() == self@.width * self@.height,
    {
        proof {
            use_type_invariant(self);
        }
        &self.built.quads
    }
}

/// A list of `width` times `height` cleared cells.
fn cleared_tiles(width: u32, height: u32) -> (tiles: Vec<Tile>)
    requires
        width * height <= MAX_CELLS,
    ensures
        tiles@ == Seq::new((width * height) as nat, |p: int| clear_tile()),
{
    assert(0 <= width * height) by (nonlinear_arith)
        requires
            0 <= width,
            0 <= height,
    ;
    let cells: usize = ((width as u64) * (height as u64)) as usize;
    let tile = Tile { glyph: GLYPH_SPACE, fg: Rgba::white(), bg: Rgba::black() };
    let mut tiles: Vec<Tile> = Vec::new();
    let mut i: usize = 0;
    while i < cells
        invariant
            i <= cells,
            tile == clear_tile(),
            tiles@.len() == i,
            forall|k: int| 0 <= k < i ==> tiles@[k] == clear_tile(),
        decreases cells - i,
    {
        tiles.push(tile);
        i += 1;
    }
    assert(tiles@ =~= Seq::new((width * height) as nat, |p: int| clear_tile()));
    tiles
}

/// In a grid of `width` columns and `height` rows every index stands for
/// one cell, and every cell has one index.
pub proof fn lemma_grid_cells(width: int, height: int)
    requires
        0 <= width,
        0 <= height,
    ensures
        forall|p: int|
            0 <= p < width * height ==> 0 <= #[trigger] column_of(p, width) < width && 0
                <= row_of(p, width) < height && p == row_of(p, width) * width + column_of(
                p,
                width,
            ),
        forall|x: int, y: int|
            0 <= x < width && 0 <= y < height ==> column_of(#[trigger] (y * width + x), width)
                == x && row_of(y * width + x, width) == y,
{
    assert forall|p: int| 0 <= p < width * height implies 0 <= #[trigger] column_of(p, width)
        < width && 0 <= row_of(p, width) < height && p == row_of(p, width) * width + column_of(
        p,
        width,
    ) by {
        assert(width > 0) by (nonlinear_arith)
            requires
                0 <= p < width * height,
                0 <= width,
                0 <= height,
        ;
        lemma_fundamental_div_mod(p, width);
        let r = p / width;
        let c = p % width;
        assert(0 <= r < height) by (nonlinear_arith)
            requires
                p == width * r + c,
                0 <= c < width,
                0 <= p < width * height,
                0 < width,
        ;
        assert(width * r == r * width) by (nonlinear_arith);
    }
    assert forall|x: int, y: int| 0 <= x < width && 0 <= y < height implies column_of(
        #[trigger] (y * width + x),
        width,
    ) == x && row_of(y * width + x, width) == y by {
        assert(y * width == width * y) by (nonlinear_arith);
        lemma_fundamental_div_mod_converse(y * width + x, width, y, x);
    }
}

/// After the cells in a rectangle were set, a cell of the console holds
/// the new content if it lies in the rectangle and what it held before if
/// it does not.
pub proof fn lemma_with_rect_cell(
    console: ConsoleView,
    x1: int,
    y1: int,
    x2: int,
    y2: int,
    tile: Tile,
    x: int,
    y: int,
)
    requires
        console.tiles.len() == console.width * console.height,
        0 <= x < console.width,
        0 <= y < console.height,
    ensures
        0 <= y * console.width + x < console.tiles.len(),
        console.with_rect(x1, y1, x2, y2, tile).width == console.width,
        console.with_rect(x1, y1, x2, y2, tile).height == console.height,
        console.with_rect(x1, y1, x2, y2, tile).tiles.len() == console.tiles.len(),
        console.with_rect(x1, y1, x2, y2, tile).tiles[y * console.width + x] == if x1 <= x < x2
            && y1 <= y < y2 {
            tile
        } else {
            console.tiles[y * console.width + x]
        },
{
    lemma_grid_cells(console.width as int, console.height as int);
    crate::geometry::lemma_cell_index(x, y, console.width as int, console.height as int);
}

/// Rebuilding a console twice gives what rebuilding it once gives, and a
/// rebuilt console has one quad for each of its cells.
pub proof fn lemma_rebuild_idempotent(console: ConsoleView, tile_size: (u32, u32))
    requires
        console.wf(),
    ensures
        console.rebuilt(tile_size).rebuilt(tile_size) == console.rebuilt(tile_size),
        console.rebuilt(tile_size).wf(),
        !console.rebuilt(tile_size).dirty,
        console.rebuilt(tile_size).geometry.len() == console.width * console.height,
        !console.dirty ==> console.rebuilt(tile_size) == console,
{
}

} // verus!
