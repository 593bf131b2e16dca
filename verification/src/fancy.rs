//! The free-position console: glyphs placed anywhere, turned and scaled.
//!
//! Positions, scales and angles are kept in thousandths: of a cell, of the
//! natural size and of a radian. Glyphs are drawn in the order of their
//! layers, lowest first; glyphs of one layer are drawn in the order in which
//! they were placed.

use vstd::prelude::*;
use crate::codepage::{FontCharType, GLYPH_SPACE};
use crate::color::Rgba;
use crate::geometry::PointF;

verus! {

/// One glyph of a free-position console.
#[derive(Clone, Copy, Debug, PartialEq, Eq)]
pub struct FancyTile {
    /// Where the glyph stands, in thousandths of a cell.
    pub position: PointF,
    /// The layer of the glyph; higher layers are drawn later.
    pub z_order: i32,
    /// The angle by which the glyph is turned, in thousandths of a radian.
    pub rotation: i32,
    /// The scale of the glyph on each axis, in thousandths.
    pub scale: PointF,
    pub fg: Rgba,
    pub bg: Rgba,
    pub glyph: FontCharType,
}

impl FancyTile {
    /// Whether the glyph, drawn with tiles of size `tile_size`, paints the
    /// logical pixel at `px` and `py`. A glyph that is not turned paints a
    /// rectangle: the tile at its position, scaled about its center. A
    /// pixel counts as painted if its top left corner lies in that
    /// rectangle. Which pixels a turned glyph covers is not worked out; it
    /// counts as painting none.
    pub open spec fn paints(self, tile_size: (u32, u32), px: int, py: int) -> bool {
        &&& self.rotation == 0
        &&& (2 * self.position.x + 1000 - self.scale.x) * tile_size.0 <= 2000 * px < (2
            * self.position.x + 1000 + self.scale.x) * tile_size.0
        &&& (2 * self.position.y + 1000 - self.scale.y) * tile_size.1 <= 2000 * py < (2
            * self.position.y + 1000 + self.scale.y) * tile_size.1
    }
}

/// The layer of glyphs that are placed without one.
pub const DEFAULT_LAYER: i32 = 1;

/// The glyphs `sorted` with `tile` put in behind the last glyph whose layer
/// is not above its own.
pub open spec fn z_inserted(sorted: Seq<FancyTile>, tile: FancyTile) -> Seq<FancyTile>
    decreases sorted.len(),
{
    if sorted.len() == 0 {
        seq![tile]
    } else if sorted.last().z_order <= tile.z_order {
        sorted.push(tile)
    } else {
        z_inserted(sorted.drop_last(), tile).push(sorted.last())
    }
}

/// The glyphs in the order of their layers, glyphs of one layer in the
/// order in which they stand in `tiles`.
pub open spec fn z_sorted(tiles: Seq<FancyTile>) -> Seq<FancyTile>
    decreases tiles.len(),
{
    if tiles.len() == 0 {
        Seq::empty()
    } else {
        z_inserted(z_sorted(tiles.drop_last()), tiles.last())
    }
}

/// No glyph stands before a glyph of a lower layer.
pub open spec fn is_z_ordered(tiles: Seq<FancyTile>) -> bool {
    forall|i: int, j: int| 0 <= i <= j < tiles.len() ==> tiles[i].z_order <= tiles[j].z_order
}

/// A free-position console as a mathematical value.
pub ghost struct FancyView {
    pub width: u32,
    pub height: u32,
    pub tiles: Seq<FancyTile>,
    pub dirty: bool,
    pub geometry: Seq<FancyTile>,
}

impl FancyView {
    /// Unless the console is dirty, its geometry is its glyphs in the order
    /// of their layers.
    pub open spec fn wf(self) -> bool {
        !self.dirty ==> self.geometry == z_sorted(self.tiles)
    }

    /// Whether some glyph of the console paints the logical pixel at `px`
    /// and `py`.
    pub open spec fn paints(self, tile_size: (u32, u32), px: int, py: int) -> bool {
        exists|i: int|
            0 <= i < self.tiles.len() && (#[trigger] self.tiles[i]).paints(tile_size, px, py)
    }

    /// The console after a glyph was placed.
    pub open spec fn with_tile(self, tile: FancyTile) -> FancyView {
        FancyView { tiles: self.tiles.push(tile), dirty: true, ..self }
    }

    /// The console after its geometry was rebuilt. A console that is not
    /// dirty stays as it is.
    pub open spec fn rebuilt(self) -> FancyView {
        if self.dirty {
            FancyView { dirty: false, geometry: z_sorted(self.tiles), ..self }
        } else {
            self
        }
    }
}

/// The glyph that `set_fancy_simple` places: on the default layer, not
/// turned, at its natural size.
pub open spec fn simple_tile(x: i64, y: i64, fg: Rgba, bg: Rgba, glyph: FontCharType) -> FancyTile {
    FancyTile {
        position: PointF { x, y },
        z_order: DEFAULT_LAYER,
        rotation: 0,
        scale: PointF { x: 1000, y: 1000 },
        fg,
        bg,
        glyph,
    }
}

/// A list of freely placed glyphs with the geometry that draws it.
pub struct FancyConsole {
    width: u32,
    height: u32,
    tiles: Vec<FancyTile>,
    dirty: bool,
    geometry: Vec<FancyTile>,
}

impl View for FancyConsole {
    type V = FancyView;

    closed spec fn view(&self) -> FancyView {
        FancyView {
            width: self.width,
            height: self.height,
            tiles: self.tiles@,
            dirty: self.dirty,
            geometry: self.geometry@,
        }
    }
}

impl FancyConsole {
    /// What holds of every value of this type.
    #[verifier::type_invariant]
    pub open spec fn well_formed(self) -> bool {
        self@.wf()
    }

    /// Creates a console of `width` by `height` cells without glyphs.
    pub fn new(width: u32, height: u32) -> (console: FancyConsole)
        ensures
            console@ == (FancyView {
                width,
                height,
                tiles: Seq::empty(),
                dirty: true,
                geometry: Seq::empty(),
            }),
            console@.wf(),
    {
        FancyConsole { width, height, tiles: Vec::new(), dirty: true, geometry: Vec::new() }
    }

    /// The numbers of columns and rows.
    pub fn get_char_size(&self) -> (size: (u32, u32))
        ensures
            size == (self@.width, self@.height),
    {
        (self.width, self.height)
    }

    /// The glyph of a cleared cell.
    pub fn get_clear_glyph(&self) -> (glyph: FontCharType)
        ensures
            glyph == GLYPH_SPACE,
    {
        GLYPH_SPACE
    }

    /// Whether a glyph was placed or removed since the geometry was last
    /// rebuilt.
    pub fn is_dirty(&self) -> (dirty: bool)
        ensures
            dirty == self@.dirty,
    {
        self.dirty
    }

    /// The number of glyphs placed.
    pub fn len(&self) -> (n: usize)
        ensures
            n == self@.tiles.len(),
    {
        self.tiles.len()
    }

    /// Places a glyph.
    pub fn set_fancy(&mut self, tile: FancyTile)
        ensures
            final(self)@ == old(self)@.with_tile(tile),
            final(self)@.wf(),
    {
        proof {
            use_type_invariant(&*self);
        }
        self.dirty = true;
        let mut tiles: Vec<FancyTile> = Vec::new();
        core::mem::swap(&mut self.tiles, &mut tiles);
        tiles.push(tile);
        core::mem::swap(&mut self.tiles, &mut tiles);
    }

    /// Places a glyph at `x` and `y` thousandths of a cell, on the default
    /// layer, not turned, at its natural size.
    pub fn set_fancy_simple(&mut self, x: i64, y: i64, fg: Rgba, bg: Rgba, glyph: FontCharType)
        ensures
            final(self)@ == old(self)@.with_tile(simple_tile(x, y, fg, bg, glyph)),
            final(self)@.wf(),
    {
        self.set_fancy(
            FancyTile {
                position: PointF { x, y },
                z_order: DEFAULT_LAYER,
                rotation: 0,
                scale: PointF { x: 1000, y: 1000 },
                fg,
                bg,
                glyph,
            },
        );
    }

    /// Marks the console dirty, so that its geometry is rebuilt and handed
    /// to the device anew before it is drawn again.
    pub fn invalidate(&mut self)
        ensures
            final(self)@ == (FancyView { dirty: true, ..old(self)@ }),
            final(self)@.wf(),
    {
        proof {
            use_type_invariant(&*self);
        }
        self.dirty = true;
    }

    /// Removes every glyph.
    pub fn cls(&mut self)
        ensures
            final(self)@ == (FancyView { tiles: Seq::empty(), dirty: true, ..old(self)@ }),
            final(self)@.wf(),
    {
        proof {
            use_type_invariant(&*self);
        }
        self.dirty = true;
        self.tiles = Vec::new();
    }

    /// Gives the console `width` by `height` cells and removes every glyph.
    pub fn set_char_size(&mut self, width: u32, height: u32)
        ensures
            final(self)@ == (FancyView {
                width,
                height,
                tiles: Seq::empty(),
                dirty: true,
                ..old(self)@
            }),
            final(self)@.wf(),
    {
        proof {
            use_type_invariant(&*self);
        }
        self.dirty = true;
        self.tiles = Vec::new();
        self.width = width;
        self.height = height;
    }

    /// Whether some glyph of the console that is not turned paints the
    /// logical pixel at `px` and `py`.
    pub fn paints(&self, tile_size: (u32, u32), px: i64, py: i64) -> (painted: bool)
        ensures
            painted == self@.paints(tile_size, px as int, py as int),
    {
        let mut i: usize = 0;
        while i < self.tiles.len()
            invariant
                i <= self.tiles.len(),
                forall|k: int|
                    0 <= k < i ==> !(#[trigger] self@.tiles[k]).paints(
                        tile_size,
                        px as int,
                        py as int,
                    ),
            decreases self.tiles.len() - i,
        {
            let tile = self.tiles[i];
            if tile.rotation == 0 && within(tile.position.x, tile.scale.x, tile_size.0, px)
                && within(tile.position.y, tile.scale.y, tile_size.1, py) {
                assert(self@.tiles[i as int].paints(tile_size, px as int, py as int));
                return true;
            }
            i += 1;
        }
        false
    }

    /// Rebuilds the geometry if the console is dirty: the glyphs in the
    /// order of their layers. The console is clean afterwards. On a clean
    /// console this does nothing.
    pub fn rebuild_geometry(&mut self)
        ensures
            final(self)@ == old(self)@.rebuilt(),
            final(self)@.wf(),
            !final(self)@.dirty,
            final(self)@.geometry.len() == final(self)@.tiles.len(),
    {
        proof {
            use_type_invariant(&*self);
            lemma_z_sorted_len(self@.tiles);
        }
        if !self.dirty {
            return ;
        }
        let mut sorted: Vec<FancyTile> = Vec::new();
        let mut i: usize = 0;
        assert(self@.tiles.take(0) =~= Seq::<FancyTile>::empty());
        while i < self.tiles.len()
            invariant
                i <= self.tiles.len(),
                self@ == old(self)@,
                sorted@ == z_sorted(self@.tiles.take(i as int)),
            decreases self.tiles.len() - i,
        {
            let tile = self.tiles[i];
            proof {
                assert(self@.tiles.take(i + 1).drop_last() =~= self@.tiles.take(i as int));
            }
            let ghost before = sorted@;
            let mut at: usize = sorted.len();
            proof {
                assert(before.take(at as int) =~= before);
                assert(z_inserted(before, tile) + before.skip(at as int) =~= z_inserted(
                    before,
                    tile,
                ));
            }
            while at > 0 && sorted[at - 1].z_order > tile.z_order
                invariant
                    at <= sorted.len(),
                    sorted@ == before,
                    z_inserted(before, tile) == z_inserted(before.take(at as int), tile)
                        + before.skip(at as int),
                decreases at,
            {
                proof {
                    let shorter = before.take(at as int);
                    assert(shorter.drop_last() =~= before.take(at - 1));
                    assert(z_inserted(shorter.drop_last(), tile).push(shorter.last())
                        + before.skip(at as int) =~= z_inserted(before.take(at - 1), tile)
                        + before.skip(at - 1));
                }
                at -= 1;
            }
            proof {
                let shorter = before.take(at as int);
                assert(z_inserted(shorter, tile) =~= shorter.push(tile));
            }
            sorted.insert(at, tile);
            assert(sorted@ =~= before.take(at as int).push(tile) + before.skip(at as int));
            i += 1;
        }
        assert(self@.tiles.take(i as int) =~= self@.tiles);
        self.geometry = sorted;
        self.dirty = false;
    }

    /// The geometry of the last rebuild.
    pub fn geometry(&self) -> (tiles: &Vec<FancyTile>)
        ensures
            tiles@ == self@.geometry,
            !self@.dirty ==> tiles@ == z_sorted(self@.tiles),
    {
        proof {
            use_type_invariant(self);
        }
        &self.geometry
    }
}

/// Whether a pixel lies, on one axis, in the extent of a tile that stands
/// at `position` thousandths of a tile and is scaled about its center by
/// `scale` thousandths.
fn within(position: i64, scale: i64, tile: u32, pixel: i64) -> (inside: bool)
    ensures
        inside == ((2 * position + 1000 - scale) * tile <= 2000 * pixel < (2 * position + 1000
            + scale) * tile),
{
    let low: i128 = 2 * (position as i128) + 1000 - (scale as i128);
    let high: i128 = 2 * (position as i128) + 1000 + (scale as i128);
    let t: i128 = tile as i128;
    assert(-0x4_0000_0000_0000_0000 * 0x1_0000_0000 <= low * t <= 0x4_0000_0000_0000_0000
        * 0x1_0000_0000 && -0x4_0000_0000_0000_0000 * 0x1_0000_0000 <= high * t
        <= 0x4_0000_0000_0000_0000 * 0x1_0000_0000) by (nonlinear_arith)
        requires
            -0x4_0000_0000_0000_0000 <= low <= 0x4_0000_0000_0000_0000,
            -0x4_0000_0000_0000_0000 <= high <= 0x4_0000_0000_0000_0000,
            0 <= t <= 0x1_0000_0000,
    ;
    low * t <= 2000 * (pixel as i128) && 2000 * (pixel as i128) < high * t
}

/// Sorting by layer keeps the number of glyphs.
pub proof fn lemma_z_sorted_len(tiles: Seq<FancyTile>)
    ensures
        z_sorted(tiles).len() == tiles.len(),
    decreases tiles.len(),
{
    if tiles.len() > 0 {
        lemma_z_sorted_len(tiles.drop_last());
        lemma_z_inserted(z_sorted(tiles.drop_last()), tiles.last());
    }
}

/// Putting a glyph in adds just this glyph and keeps the order of layers.
pub proof fn lemma_z_inserted(sorted: Seq<FancyTile>, tile: FancyTile)
    ensures
        z_inserted(sorted, tile).len() == sorted.len() + 1,
        z_inserted(sorted, tile).to_multiset() == sorted.to_multiset().insert(tile),
        is_z_ordered(sorted) ==> is_z_ordered(z_inserted(sorted, tile)),
    decreases sorted.len(),
{
    broadcast use vstd::seq_lib::group_to_multiset_ensures;

    if sorted.len() == 0 {
        assert(seq![tile] =~= Seq::<FancyTile>::empty().push(tile));
    } else if sorted.last().z_order <= tile.z_order {
    } else {
        let shorter = sorted.drop_last();
        lemma_z_inserted(shorter, tile);
        assert(sorted =~= shorter.push(sorted.last()));
        let inner = z_inserted(shorter, tile);
        assert(inner.push(sorted.last()).to_multiset() =~= sorted.to_multiset().insert(tile));
        if is_z_ordered(sorted) {
            assert(is_z_ordered(shorter));
            assert forall|k: int| 0 <= k < inner.len() implies inner[k].z_order
                <= sorted.last().z_order by {
                assert(inner.to_multiset().count(inner[k]) > 0);
                if inner[k] != tile {
                    assert(shorter.to_multiset().count(inner[k]) > 0);
                    let m = choose|m: int| 0 <= m < shorter.len() && shorter[m] == inner[k];
                    assert(sorted[m] == shorter[m]);
                }
            }
        }
    }
}

/// The geometry of a free-position console holds each of its glyphs once
/// and never draws a glyph before one of a lower layer.
pub proof fn lemma_z_sorted(tiles: Seq<FancyTile>)
    ensures
        z_sorted(tiles).len() == tiles.len(),
        z_sorted(tiles).to_multiset() == tiles.to_multiset(),
        is_z_ordered(z_sorted(tiles)),
    decreases tiles.len(),
{
    broadcast use vstd::seq_lib::group_to_multiset_ensures;

    if tiles.len() > 0 {
        let shorter = tiles.drop_last();
        lemma_z_sorted(shorter);
        lemma_z_inserted(z_sorted(shorter), tiles.last());
        assert(tiles =~= shorter.push(tiles.last()));
    } else {
        assert(tiles =~= Seq::<FancyTile>::empty());
    }
}

} // verus!
