//! The fonts and the console layers of a terminal, in drawing order.

use vstd::prelude::*;
use crate::console::{ConsoleView, GridConsole, MAX_CELLS};
use crate::fancy::{FancyConsole, FancyView};
use crate::sprite::{SpriteConsole, SpriteView};

verus! {

/// A console font: the pixel size of one of its tiles, and the handle of
/// its texture once that was uploaded.
#[derive(Clone, Copy, Debug, PartialEq, Eq)]
pub struct Font {
    pub tile_size: (u32, u32),
    pub texture: Option<u32>,
}

/// The kinds of console layers.
#[derive(Clone, Copy, Debug, PartialEq, Eq, Structural)]
pub enum LayerKind {
    Grid,
    Fancy,
    Sprite,
}

/// A console layer of one of the three kinds.
pub enum ConsoleLayer {
    Grid(GridConsole),
    Fancy(FancyConsole),
    Sprite(SpriteConsole),
}

/// A console layer as a mathematical value.
pub ghost enum LayerView {
    Grid(ConsoleView),
    Fancy(FancyView),
    Sprite(SpriteView),
}

impl View for ConsoleLayer {
    type V = LayerView;

    open spec fn view(&self) -> LayerView {
        match *self {
            ConsoleLayer::Grid(c) => LayerView::Grid(c@),
            ConsoleLayer::Fancy(c) => LayerView::Fancy(c@),
            ConsoleLayer::Sprite(c) => LayerView::Sprite(c@),
        }
    }
}

impl LayerView {
    /// The kind of the layer.
    pub open spec fn kind(self) -> LayerKind {
        match self {
            LayerView::Grid(_) => LayerKind::Grid,
            LayerView::Fancy(_) => LayerKind::Fancy,
            LayerView::Sprite(_) => LayerKind::Sprite,
        }
    }

    /// Whether the layer changed since its geometry was last rebuilt.
    pub open spec fn dirty(self) -> bool {
        match self {
            LayerView::Grid(c) => c.dirty,
            LayerView::Fancy(c) => c.dirty,
            LayerView::Sprite(c) => c.dirty,
        }
    }

    /// What holds of every layer: its geometry is whole, and unless the
    /// layer is dirty it is the geometry of what the layer holds.
    pub open spec fn wf(self) -> bool {
        match self {
            LayerView::Grid(c) => c.wf(),
            LayerView::Fancy(c) => c.wf(),
            LayerView::Sprite(c) => c.wf(),
        }
    }

    /// The number of quads in the geometry of the layer.
    pub open spec fn geometry_len(self) -> nat {
        match self {
            LayerView::Grid(c) => c.geometry.len(),
            LayerView::Fancy(c) => c.geometry.len(),
            LayerView::Sprite(c) => c.geometry.len(),
        }
    }

    /// The number of cells, glyphs or sprites that the layer holds.
    pub open spec fn content_len(self) -> nat {
        match self {
            LayerView::Grid(c) => (c.width * c.height) as nat,
            LayerView::Fancy(c) => c.tiles.len(),
            LayerView::Sprite(c) => c.sprites.len(),
        }
    }

    /// The numbers of columns and rows of the layer.
    pub open spec fn size(self) -> (u32, u32) {
        match self {
            LayerView::Grid(c) => (c.width, c.height),
            LayerView::Fancy(c) => (c.width, c.height),
            LayerView::Sprite(c) => (c.width, c.height),
        }
    }

    /// The layer marked dirty, with all it holds as it was.
    pub open spec fn invalidated(self) -> LayerView {
        match self {
            LayerView::Grid(c) => LayerView::Grid(ConsoleView { dirty: true, ..c }),
            LayerView::Fancy(c) => LayerView::Fancy(FancyView { dirty: true, ..c }),
            LayerView::Sprite(c) => LayerView::Sprite(SpriteView { dirty: true, ..c }),
        }
    }

    /// The layer after its geometry was rebuilt for tiles of size
    /// `tile_size`.
    pub open spec fn rebuilt(self, tile_size: (u32, u32)) -> LayerView {
        match self {
            LayerView::Grid(c) => LayerView::Grid(c.rebuilt(tile_size)),
            LayerView::Fancy(c) => LayerView::Fancy(c.rebuilt()),
            LayerView::Sprite(c) => LayerView::Sprite(c.rebuilt()),
        }
    }

    /// The layer after it took a new size in cells: it has lost its cells,
    /// glyphs or sprites and is dirty. A character grid stays as it is if
    /// the new size has more cells than a console can hold.
    pub open spec fn resized(self, width: u32, height: u32) -> LayerView {
        match self {
            LayerView::Grid(c) => if width * height <= MAX_CELLS {
                LayerView::Grid(c.resized(width, height))
            } else {
                self
            },
            LayerView::Fancy(c) => LayerView::Fancy(
                FancyView { width, height, tiles: Seq::empty(), dirty: true, ..c },
            ),
            LayerView::Sprite(c) => LayerView::Sprite(
                SpriteView { width, height, sprites: Seq::empty(), dirty: true, ..c },
            ),
        }
    }

    /// Whether the layer paints the logical pixel at `px` and `py` when
    /// drawn with tiles of size `tile_size`. A character grid paints the
    /// pixels of its cells, a sprite layer those of its sprites, and a
    /// free-position layer those of its glyphs that are not turned. A
    /// turned glyph counts as painting none.
    pub open spec fn paints(self, tile_size: (u32, u32), px: int, py: int) -> bool {
        match self {
            LayerView::Grid(c) => 0 <= px < c.width * tile_size.0 && 0 <= py < c.height
                * tile_size.1,
            LayerView::Fancy(c) => c.paints(tile_size, px, py),
            LayerView::Sprite(c) => c.paints(px, py),
        }
    }
}

impl ConsoleLayer {
    /// The kind of the layer.
    pub fn kind(&self) -> (kind: LayerKind)
        ensures
            kind == self@.kind(),
    {
        match self {
            ConsoleLayer::Grid(_) => LayerKind::Grid,
            ConsoleLayer::Fancy(_) => LayerKind::Fancy,
            ConsoleLayer::Sprite(_) => LayerKind::Sprite,
        }
    }

    /// Whether the layer changed since its geometry was last rebuilt.
    pub fn is_dirty(&self) -> (dirty: bool)
        ensures
            dirty == self@.dirty(),
    {
        match self {
            ConsoleLayer::Grid(c) => c.is_dirty(),
            ConsoleLayer::Fancy(c) => c.is_dirty(),
            ConsoleLayer::Sprite(c) => c.is_dirty(),
        }
    }

    /// The numbers of columns and rows of the layer.
    pub fn get_char_size(&self) -> (size: (u32, u32))
        ensures
            size == self@.size(),
    {
        match self {
            ConsoleLayer::Grid(c) => c.get_char_size(),
            ConsoleLayer::Fancy(c) => c.get_char_size(),
            ConsoleLayer::Sprite(c) => c.get_char_size(),
        }
    }

    /// Marks the layer dirty, so that its geometry is rebuilt and handed to
    /// the device anew before it is drawn again.
    pub fn invalidate(&mut self)
        ensures
            final(self)@ == old(self)@.invalidated(),
    {
        match self {
            ConsoleLayer::Grid(c) => c.invalidate(),
            ConsoleLayer::Fancy(c) => c.invalidate(),
            ConsoleLayer::Sprite(c) => c.invalidate(),
        }
    }

    /// Rebuilds the geometry of the layer if it is dirty. Afterwards the
    /// layer is clean and has one quad for each cell, glyph or sprite.
    pub fn rebuild_geometry(&mut self, tile_size: (u32, u32))
        ensures
            final(self)@ == old(self)@.rebuilt(tile_size),
            !final(self)@.dirty(),
            final(self)@.geometry_len() == final(self)@.content_len(),
    {
        match self {
            ConsoleLayer::Grid(c) => c.rebuild_geometry(tile_size),
            ConsoleLayer::Fancy(c) => c.rebuild_geometry(),
            ConsoleLayer::Sprite(c) => c.rebuild_geometry(),
        }
    }

    /// Gives the layer a new size in cells.
    pub fn set_char_size(&mut self, width: u32, height: u32)
        ensures
            final(self)@ == old(self)@.resized(width, height),
    {
        match self {
            ConsoleLayer::Grid(c) => {
                proof {
                    lemma_extent(width, height);
                }
                if (width as u64) * (height as u64) <= MAX_CELLS as u64 {
                    c.set_char_size(width, height);
                }
            },
            ConsoleLayer::Fancy(c) => c.set_char_size(width, height),
            ConsoleLayer::Sprite(c) => c.set_char_size(width, height),
        }
    }

    /// Whether the layer paints the logical pixel at `px` and `py`.
    pub fn paints(&self, tile_size: (u32, u32), px: i64, py: i64) -> (painted: bool)
        ensures
            painted == self@.paints(tile_size, px as int, py as int),
    {
        match self {
            ConsoleLayer::Grid(c) => {
                let size = c.get_char_size();
                proof {
                    lemma_extent(size.0, tile_size.0);
                    lemma_extent(size.1, tile_size.1);
                }
                0 <= px && (px as i128) < (size.0 as i128) * (tile_size.0 as i128) && 0 <= py && (
                py as i128) < (size.1 as i128) * (tile_size.1 as i128)
            },
            ConsoleLayer::Fancy(c) => c.paints(tile_size, px, py),
            ConsoleLayer::Sprite(c) => c.paints(px, py),
        }
    }
}

/// Rebuilding a layer twice gives what rebuilding it once gives. A rebuilt
/// layer is clean and has one quad for each of its cells, glyphs or
/// sprites; a layer that was clean stays as it was.
pub proof fn lemma_layer_rebuild_idempotent(layer: LayerView, tile_size: (u32, u32))
    requires
        layer.wf(),
    ensures
        layer.rebuilt(tile_size).rebuilt(tile_size) == layer.rebuilt(tile_size),
        layer.rebuilt(tile_size).wf(),
        !layer.rebuilt(tile_size).dirty(),
        layer.rebuilt(tile_size).geometry_len() == layer.rebuilt(tile_size).content_len(),
        !layer.dirty() ==> layer.rebuilt(tile_size) == layer,
{
    match layer {
        LayerView::Grid(c) => {
            crate::console::lemma_rebuild_idempotent(c, tile_size);
        },
        LayerView::Fancy(c) => {
            crate::fancy::lemma_z_sorted_len(c.tiles);
        },
        LayerView::Sprite(c) => {},
    }
}

/// A layer that is given its cells has them, all of them: when every
/// layer is given as many whole cells of its font as fit into `available`
/// pixels, a layer whose font exists and has a tile that is not empty has
/// `available / tile` columns and rows afterwards, and holds one cell for
/// each column of each row if it is a character grid. A grid with more
/// than `MAX_CELLS` cells cannot be held; such a grid is left out here.
pub proof fn lemma_regridded_cells(registry: RegistryView, available: (u32, u32), i: int)
    requires
        registry.wf(),
        0 <= i < registry.consoles.len(),
        registry.consoles[i].font_index < registry.fonts.len(),
        registry.active_tile(i).0 > 0,
        registry.active_tile(i).1 > 0,
        registry.consoles[i].console is Grid ==> (available.0 / registry.active_tile(i).0) * (
        available.1 / registry.active_tile(i).1) <= MAX_CELLS,
    ensures
        ({
            let columns = (available.0 / registry.active_tile(i).0) as u32;
            let rows = (available.1 / registry.active_tile(i).1) as u32;
            let after = registry.regridded(available).consoles[i];
            &&& after.font_index == registry.consoles[i].font_index
            &&& after.console.kind() == registry.consoles[i].console.kind()
            &&& after.console.size() == (columns, rows)
            &&& after.console.wf()
            &&& after.console is Grid ==> after.console->Grid_0.tiles.len() == columns * rows
            &&& after.console.size() != registry.consoles[i].console.size()
                ==> after.console.dirty()
        }),
{
    let tile = registry.active_tile(i);
    let columns = available.0 as int / tile.0 as int;
    let rows = available.1 as int / tile.1 as int;
    assert(0 <= columns <= available.0 && 0 <= rows <= available.1) by (nonlinear_arith)
        requires
            columns == available.0 as int / tile.0 as int,
            rows == available.1 as int / tile.1 as int,
            tile.0 > 0,
            tile.1 > 0,
            available.0 >= 0,
            available.1 >= 0,
    ;
    assert(registry.consoles[i].console.wf());
}

/// The layers that re-gridding names are those that cannot be given as
/// many whole cells as fit into `available` pixels, and no others.
pub proof fn lemma_unfit(registry: RegistryView, available: (u32, u32), upto: int, i: int)
    requires
        0 <= upto <= registry.consoles.len() <= usize::MAX,
        0 <= i < registry.consoles.len(),
    ensures
        registry.unfit(available, upto).contains(i as usize) <==> i < upto
            && !registry.consoles[i].fits(registry.fonts, available),
    decreases upto,
{
    if upto > 0 {
        lemma_unfit(registry, available, upto - 1, i);
        let before = registry.unfit(available, upto - 1);
        if !registry.consoles[upto - 1].fits(registry.fonts, available) {
            let now = before.push((upto - 1) as usize);
            assert(now[now.len() - 1] == (upto - 1) as usize);
            assert forall|k: int| 0 <= k < before.len() implies now[k] == before[k] by {}
            if before.contains(i as usize) {
                let k = choose|k: int| 0 <= k < before.len() && before[k] == i as usize;
                assert(now[k] == i as usize);
            }
            if now.contains(i as usize) && i != upto - 1 {
                let k = choose|k: int| 0 <= k < now.len() && now[k] == i as usize;
                assert(before[k] == i as usize);
            }
        }
    }
}

/// The pixel extent of a number of cells fits in 64 bits.
proof fn lemma_extent(cells: u32, tile: u32)
    ensures
        0 <= cells * tile <= 0xffff_ffff * 0xffff_ffff,
{
    assert(0 <= cells * tile <= 0xffff_ffff * 0xffff_ffff) by (nonlinear_arith)
        requires
            0 <= cells <= 0xffff_ffff,
            0 <= tile <= 0xffff_ffff,
    ;
}

/// A console layer with the number of the font that it is drawn in.
pub struct ConsoleEntry {
    pub console: ConsoleLayer,
    pub font_index: usize,
}

/// A registered console layer as a mathematical value.
pub ghost struct EntryView {
    pub console: LayerView,
    pub font_index: usize,
}

impl View for ConsoleEntry {
    type V = EntryView;

    open spec fn view(&self) -> EntryView {
        EntryView { console: self.console@, font_index: self.font_index }
    }
}

impl EntryView {
    /// The tile size of the layer's font, if the font exists.
    pub open spec fn tile_size(self, fonts: Seq<Font>) -> Option<(u32, u32)> {
        if self.font_index < fonts.len() {
            Some(fonts[self.font_index as int].tile_size)
        } else {
            None
        }
    }

    /// The entry after its geometry was rebuilt. Without its font a layer
    /// cannot be rebuilt and stays as it is.
    pub open spec fn rebuilt(self, fonts: Seq<Font>) -> EntryView {
        match self.tile_size(fonts) {
            Some(tile_size) => EntryView { console: self.console.rebuilt(tile_size), ..self },
            None => self,
        }
    }

    /// The entry after its layer was given as many whole cells as fit into
    /// `available` pixels. A layer that has this size already stays as it
    /// is, and so does one whose font is missing or has an empty tile.
    pub open spec fn regridded(self, fonts: Seq<Font>, available: (u32, u32)) -> EntryView {
        match self.tile_size(fonts) {
            Some(tile_size) => {
                let columns = (available.0 / tile_size.0) as u32;
                let rows = (available.1 / tile_size.1) as u32;
                if tile_size.0 > 0 && tile_size.1 > 0 && self.console.size() != (columns, rows) {
                    EntryView { console: self.console.resized(columns, rows), ..self }
                } else {
                    self
                }
            },
            None => self,
        }
    }

    /// Whether the layer can be given as many whole cells as fit into
    /// `available` pixels: its font exists and has a tile that is not
    /// empty, and a character grid gets no more than `MAX_CELLS` cells.
    pub open spec fn fits(self, fonts: Seq<Font>, available: (u32, u32)) -> bool {
        match self.tile_size(fonts) {
            Some(tile_size) => tile_size.0 > 0 && tile_size.1 > 0 && (self.console is Grid ==> (
            available.0 / tile_size.0) * (available.1 / tile_size.1) <= MAX_CELLS),
            None => false,
        }
    }

    /// Whether the layer paints the logical pixel at `px` and `py`.
    pub open spec fn paints(self, fonts: Seq<Font>, px: int, py: int) -> bool {
        match self.tile_size(fonts) {
            Some(tile_size) => self.console.paints(tile_size, px, py),
            None => false,
        }
    }
}

/// The fonts of a terminal and its console layers in drawing order: a
/// layer is drawn over those before it.
pub struct Registry {
    pub fonts: Vec<Font>,
    pub consoles: Vec<ConsoleEntry>,
}

/// A registry as a mathematical value.
pub ghost struct RegistryView {
    pub fonts: Seq<Font>,
    pub consoles: Seq<EntryView>,
}

impl View for Registry {
    type V = RegistryView;

    open spec fn view(&self) -> RegistryView {
        RegistryView {
            fonts: self.fonts@,
            consoles: self.consoles@.map_values(|e: ConsoleEntry| e@),
        }
    }
}

impl RegistryView {
    /// The registry after the geometry of every layer was rebuilt.
    pub open spec fn rebuilt(self) -> RegistryView {
        RegistryView {
            consoles: Seq::new(self.consoles.len(), |i: int| self.consoles[i].rebuilt(self.fonts)),
            ..self
        }
    }

    /// The registry with every layer marked dirty.
    pub open spec fn invalidated(self) -> RegistryView {
        RegistryView {
            consoles: Seq::new(
                self.consoles.len(),
                |i: int|
                    EntryView {
                        console: self.consoles[i].console.invalidated(),
                        ..self.consoles[i]
                    },
            ),
            ..self
        }
    }

    /// The registry after every layer was given as many whole cells as fit
    /// into `available` pixels.
    pub open spec fn regridded(self, available: (u32, u32)) -> RegistryView {
        RegistryView {
            consoles: Seq::new(
                self.consoles.len(),
                |i: int| self.consoles[i].regridded(self.fonts, available),
            ),
            ..self
        }
    }

    /// The numbers of those among the first `upto` layers that cannot be
    /// given as many whole cells as fit into `available` pixels, in
    /// increasing order.
    pub open spec fn unfit(self, available: (u32, u32), upto: int) -> Seq<usize>
        decreases upto,
    {
        if upto <= 0 {
            Seq::empty()
        } else {
            let before = self.unfit(available, upto - 1);
            if self.consoles[upto - 1].fits(self.fonts, available) {
                before
            } else {
                before.push((upto - 1) as usize)
            }
        }
    }

    /// The tile size of the font of layer `i`, or nothing by nothing if
    /// the font is missing.
    pub open spec fn active_tile(self, i: int) -> (u32, u32) {
        match self.consoles[i].tile_size(self.fonts) {
            Some(tile_size) => tile_size,
            None => (0, 0),
        }
    }

    /// Whether layer `i` paints the logical pixel at `px` and `py`.
    pub open spec fn paints(self, i: int, px: int, py: int) -> bool {
        self.consoles[i].paints(self.fonts, px, py)
    }

    /// The largest tile width and the largest tile height among the fonts
    /// of the first `upto` layers.
    pub open spec fn largest_tile(self, upto: int) -> (u32, u32)
        decreases upto,
    {
        if upto <= 0 {
            (0, 0)
        } else {
            let before = self.largest_tile(upto - 1);
            let tile = self.active_tile(upto - 1);
            (
                if tile.0 > before.0 {
                    tile.0
                } else {
                    before.0
                },
                if tile.1 > before.1 {
                    tile.1
                } else {
                    before.1
                },
            )
        }
    }

    /// What holds of every layer holds of each layer of the registry.
    pub open spec fn wf(self) -> bool {
        forall|i: int| 0 <= i < self.consoles.len() ==> (#[trigger] self.consoles[i]).console.wf()
    }

    /// Every layer that has its font is clean, with one quad for each of
    /// its cells, glyphs or sprites.
    pub open spec fn clean(self) -> bool {
        forall|i: int|
            0 <= i < self.consoles.len() && (#[trigger] self.consoles[i]).font_index
                < self.fonts.len() ==> !self.consoles[i].console.dirty()
                && self.consoles[i].console.geometry_len()
                == self.consoles[i].console.content_len()
    }
}

impl Registry {
    /// A registry without fonts and layers.
    pub fn new() -> (registry: Registry)
        ensures
            registry@ == (RegistryView { fonts: Seq::empty(), consoles: Seq::empty() }),
    {
        let registry = Registry { fonts: Vec::new(), consoles: Vec::new() };
        assert(registry@.consoles =~= Seq::<EntryView>::empty());
        registry
    }

    /// Adds a font and returns its number.
    pub fn register_font(&mut self, font: Font) -> (index: usize)
        ensures
            final(self)@ == (RegistryView { fonts: old(self)@.fonts.push(font), ..old(self)@ }),
            index == old(self)@.fonts.len(),
    {
        self.fonts.push(font);
        self.fonts.len() - 1
    }

    /// Adds a layer above all others and returns its number.
    pub fn register_console(&mut self, console: ConsoleLayer, font_index: usize) -> (index: usize)
        ensures
            final(self)@ == (RegistryView {
                consoles: old(self)@.consoles.push(EntryView { console: console@, font_index }),
                ..old(self)@
            }),
            index == old(self)@.consoles.len(),
    {
        self.consoles.push(ConsoleEntry { console, font_index });
        assert(self@.consoles =~= old(self)@.consoles.push(
            EntryView { console: console@, font_index },
        ));
        self.consoles.len() - 1
    }

    /// Rebuilds the geometry of every dirty layer. Afterwards each layer
    /// that has its font is clean, with one quad for each cell, glyph or
    /// sprite.
    pub fn rebuild_consoles(&mut self)
        ensures
            final(self)@ == old(self)@.rebuilt(),
            final(self)@.clean(),
    {
        let ghost start = self@;
        let mut i: usize = 0;
        while i < self.consoles.len()
            invariant
                i <= self.consoles.len(),
                start == old(self)@,
                self@.fonts == start.fonts,
                self@.consoles.len() == start.consoles.len(),
                forall|k: int|
                    0 <= k < i ==> #[trigger] self@.consoles[k] == start.consoles[k].rebuilt(
                        start.fonts,
                    ),
                forall|k: int|
                    0 <= k < i && (#[trigger] self@.consoles[k]).font_index < start.fonts.len()
                        ==> !self@.consoles[k].console.dirty()
                        && self@.consoles[k].console.geometry_len()
                        == self@.consoles[k].console.content_len(),
                forall|k: int|
                    i <= k < self.consoles.len() ==> #[trigger] self@.consoles[k]
                        == start.consoles[k],
            decreases self.consoles.len() - i,
        {
            let ghost before = self@;
            let font_index = self.consoles[i].font_index;
            if font_index < self.fonts.len() {
                let tile_size = self.fonts[font_index].tile_size;
                self.consoles[i].console.rebuild_geometry(tile_size);
            }
            proof {
                assert(self.consoles@.len() == before.consoles.len());
                assert forall|k: int| 0 <= k < self.consoles.len() && k != i implies #[trigger] self@.consoles[k]
                    == before.consoles[k] by {}
                assert(self@.consoles[i as int] == before.consoles[i as int].rebuilt(start.fonts));
            }
            i += 1;
        }
        assert(self@.consoles =~= start.rebuilt().consoles);
    }

    /// Marks every layer dirty. The geometry that the device holds is laid
    /// out for one size of the backing surface; when that size changes,
    /// every layer must be rebuilt and handed over anew.
    pub fn invalidate_all(&mut self)
        ensures
            final(self)@ == old(self)@.invalidated(),
    {
        let ghost start = self@;
        let mut i: usize = 0;
        while i < self.consoles.len()
            invariant
                i <= self.consoles.len(),
                start == old(self)@,
                self@.fonts == start.fonts,
                self@.consoles.len() == start.consoles.len(),
                forall|k: int|
                    0 <= k < i ==> #[trigger] self@.consoles[k] == start.invalidated().consoles[k],
                forall|k: int|
                    i <= k < self.consoles.len() ==> #[trigger] self@.consoles[k]
                        == start.consoles[k],
            decreases self.consoles.len() - i,
        {
            let ghost before = self@;
            self.consoles[i].console.invalidate();
            proof {
                assert(self.consoles@.len() == before.consoles.len());
                assert forall|k: int| 0 <= k < self.consoles.len() && k != i implies #[trigger] self@.consoles[k]
                    == before.consoles[k] by {}
                assert(before.consoles[i as int] == start.consoles[i as int]);
                assert(self@.consoles[i as int] == start.invalidated().consoles[i as int]);
            }
            i += 1;
        }
        assert(self@.consoles =~= start.invalidated().consoles);
    }

    /// Gives every layer as many whole cells of its font as fit into
    /// `available` pixels. A layer that changes size loses its cells or
    /// glyphs; one that has the size already is not touched. A layer whose
    /// font is missing or has an empty tile keeps its size, and so does a
    /// character grid that would get more than `MAX_CELLS` cells: the
    /// numbers of these layers are returned, in increasing order.
    pub fn regrid(&mut self, available: (u32, u32)) -> (kept: Vec<usize>)
        ensures
            final(self)@ == old(self)@.regridded(available),
            kept@ == old(self)@.unfit(available, old(self)@.consoles.len() as int),
    {
        let ghost start = self@;
        let mut kept: Vec<usize> = Vec::new();
        let mut i: usize = 0;
        while i < self.consoles.len()
            invariant
                i <= self.consoles.len(),
                start == old(self)@,
                self@.fonts == start.fonts,
                self@.consoles.len() == start.consoles.len(),
                kept@ == start.unfit(available, i as int),
                forall|k: int|
                    0 <= k < i ==> #[trigger] self@.consoles[k] == start.consoles[k].regridded(
                        start.fonts,
                        available,
                    ),
                forall|k: int|
                    i <= k < self.consoles.len() ==> #[trigger] self@.consoles[k]
                        == start.consoles[k],
            decreases self.consoles.len() - i,
        {
            let ghost before = self@;
            let font_index = self.consoles[i].font_index;
            let mut fit = false;
            if font_index < self.fonts.len() {
                let tile_size = self.fonts[font_index].tile_size;
                if tile_size.0 > 0 && tile_size.1 > 0 {
                    let columns: u32 = available.0 / tile_size.0;
                    let rows: u32 = available.1 / tile_size.1;
                    proof {
                        lemma_extent(columns, rows);
                    }
                    fit = match self.consoles[i].console.kind() {
                        LayerKind::Grid => (columns as u64) * (rows as u64) <= MAX_CELLS as u64,
                        _ => true,
                    };
                    let size = self.consoles[i].console.get_char_size();
                    if size.0 != columns || size.1 != rows {
                        self.consoles[i].console.set_char_size(columns, rows);
                    }
                }
            }
            proof {
                assert(self.consoles@.len() == before.consoles.len());
                assert forall|k: int| 0 <= k < self.consoles.len() && k != i implies #[trigger] self@.consoles[k]
                    == before.consoles[k] by {}
                assert(self@.consoles[i as int] == before.consoles[i as int].regridded(
                    start.fonts,
                    available,
                ));
                assert(fit == start.consoles[i as int].fits(start.fonts, available));
            }
            if !fit {
                kept.push(i);
            }
            i += 1;
        }
        assert(self@.consoles =~= start.regridded(available).consoles);
        kept
    }

    /// The topmost layer that paints the logical pixel at `px` and `py`:
    /// the one drawn last among those that paint it. A character grid
    /// paints the pixels of its cells, a sprite layer those of its sprites,
    /// a free-position layer those of its glyphs that are not turned. Which
    /// pixels a turned glyph covers is not worked out here: a pixel that
    /// only a turned glyph covers is answered as if the glyph were not
    /// there.
    pub fn top_console_at(&self, px: i64, py: i64) -> (top: Option<usize>)
        ensures
            match top {
                Some(i) => i < self@.consoles.len() && self@.paints(i as int, px as int, py as int)
                    && forall|k: int|
                    i < k < self@.consoles.len() ==> !#[trigger] self@.paints(
                        k,
                        px as int,
                        py as int,
                    ),
                None => forall|k: int|
                    0 <= k < self@.consoles.len() ==> !#[trigger] self@.paints(
                        k,
                        px as int,
                        py as int,
                    ),
            },
    {
        let mut i: usize = self.consoles.len();
        while i > 0
            invariant
                i <= self.consoles.len(),
                forall|k: int|
                    i <= k < self@.consoles.len() ==> !#[trigger] self@.paints(
                        k,
                        px as int,
                        py as int,
                    ),
            decreases i,
        {
            i -= 1;
            let font_index = self.consoles[i].font_index;
            if font_index < self.fonts.len() {
                let tile_size = self.fonts[font_index].tile_size;
                if self.consoles[i].console.paints(tile_size, px, py) {
                    return Some(i);
                }
            }
        }
        None
    }
}

/// The largest tile width and the largest tile height among the fonts of
/// the console layers; 0 where no layer has a font. The two may come from
/// different fonts.
pub fn largest_active_font(registry: &Registry) -> (largest: (u32, u32))
    ensures
        largest == registry@.largest_tile(registry@.consoles.len() as int),
        forall|i: int|
            0 <= i < registry@.consoles.len() ==> (#[trigger] registry@.active_tile(i)).0
                <= largest.0 && registry@.active_tile(i).1 <= largest.1,
        largest.0 == 0 || exists|i: int|
            0 <= i < registry@.consoles.len() && (#[trigger] registry@.active_tile(i)).0
                == largest.0,
        largest.1 == 0 || exists|i: int|
            0 <= i < registry@.consoles.len() && (#[trigger] registry@.active_tile(i)).1
                == largest.1,
{
    let mut max_width: u32 = 0;
    let mut max_height: u32 = 0;
    let mut n: usize = 0;
    while n < registry.consoles.len()
        invariant
            n <= registry.consoles.len(),
            (max_width, max_height) == registry@.largest_tile(n as int),
            forall|i: int|
                0 <= i < n ==> (#[trigger] registry@.active_tile(i)).0 <= max_width
                    && registry@.active_tile(i).1 <= max_height,
            max_width == 0 || exists|i: int|
                0 <= i < n && (#[trigger] registry@.active_tile(i)).0 == max_width,
            max_height == 0 || exists|i: int|
                0 <= i < n && (#[trigger] registry@.active_tile(i)).1 == max_height,
        decreases registry.consoles.len() - n,
    {
        let font_index = registry.consoles[n].font_index;
        if font_index < registry.fonts.len() {
            let size = registry.fonts[font_index].tile_size;
            assert(registry@.active_tile(n as int) == size);
            if size.0 > max_width {
                max_width = size.0;
            }
            if size.1 > max_height {
                max_height = size.1;
            }
        } else {
            assert(registry@.active_tile(n as int) == (0u32, 0u32));
        }
        n += 1;
    }
    (max_width, max_height)
}

} // verus!
