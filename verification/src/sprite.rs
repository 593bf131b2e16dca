//! The sprite console: pictures from a sprite sheet, placed by pixel.

use vstd::prelude::*;
use crate::color::Rgba;

verus! {

/// One sprite to draw: which picture of the sheet, where and how large in
/// logical pixels from the top left, and the color it is tinted with.
#[derive(Clone, Copy, Debug, PartialEq, Eq)]
pub struct RenderSprite {
    pub x: i32,
    pub y: i32,
    pub width: u32,
    pub height: u32,
    pub z_order: i32,
    pub tint: Rgba,
    pub index: usize,
}

impl RenderSprite {
    /// Whether the sprite paints the pixel at `px` and `py`.
    pub open spec fn paints(self, px: int, py: int) -> bool {
        self.x <= px < self.x + self.width && self.y <= py < self.y + self.height
    }
}

/// A sprite console as a mathematical value.
pub ghost struct SpriteView {
    pub width: u32,
    pub height: u32,
    pub sprite_sheet: usize,
    pub sprites: Seq<RenderSprite>,
    pub dirty: bool,
    pub geometry: Seq<RenderSprite>,
}

impl SpriteView {
    /// Unless the console is dirty, its geometry is its sprites.
    pub open spec fn wf(self) -> bool {
        !self.dirty ==> self.geometry == self.sprites
    }

    /// Whether some sprite of the console paints the pixel at `px` and
    /// `py`.
    pub open spec fn paints(self, px: int, py: int) -> bool {
        exists|i: int| 0 <= i < self.sprites.len() && (#[trigger] self.sprites[i]).paints(px, py)
    }

    /// The console after its geometry was rebuilt. A console that is not
    /// dirty stays as it is.
    pub open spec fn rebuilt(self) -> SpriteView {
        if self.dirty {
            SpriteView { dirty: false, geometry: self.sprites, ..self }
        } else {
            self
        }
    }
}

/// A list of sprites with the geometry that draws it.
pub struct SpriteConsole {
    width: u32,
    height: u32,
    sprite_sheet: usize,
    sprites: Vec<RenderSprite>,
    dirty: bool,
    geometry: Vec<RenderSprite>,
}

impl View for SpriteConsole {
    type V = SpriteView;

    closed spec fn view(&self) -> SpriteView {
        SpriteView {
            width: self.width,
            height: self.height,
            sprite_sheet: self.sprite_sheet,
            sprites: self.sprites@,
            dirty: self.dirty,
            geometry: self.geometry@,
        }
    }
}

impl SpriteConsole {
    /// What holds of every value of this type.
    #[verifier::type_invariant]
    pub open spec fn well_formed(self) -> bool {
        self@.wf()
    }

    /// Creates a console of `width` by `height` cells that draws from the
    /// sprite sheet with the given number. It holds no sprites.
    pub fn new(width: u32, height: u32, sprite_sheet: usize) -> (console: SpriteConsole)
        ensures
            console@ == (SpriteView {
                width,
                height,
                sprite_sheet,
                sprites: Seq::empty(),
                dirty: true,
                geometry: Seq::empty(),
            }),
            console@.wf(),
    {
        SpriteConsole {
            width,
            height,
            sprite_sheet,
            sprites: Vec::new(),
            dirty: true,
            geometry: Vec::new(),
        }
    }

    /// The numbers of columns and rows.
    pub fn get_char_size(&self) -> (size: (u32, u32))
        ensures
            size == (self@.width, self@.height),
    {
        (self.width, self.height)
    }

    /// The number of the sprite sheet that the console draws from.
    pub fn sprite_sheet(&self) -> (sheet: usize)
        ensures
            sheet == self@.sprite_sheet,
    {
        self.sprite_sheet
    }

    /// Whether a sprite was added or removed since the geometry was last
    /// rebuilt.
    pub fn is_dirty(&self) -> (dirty: bool)
        ensures
            dirty == self@.dirty,
    {
        self.dirty
    }

    /// The number of sprites.
    pub fn len(&self) -> (n: usize)
        ensures
            n == self@.sprites.len(),
    {
        self.sprites.len()
    }

    /// Adds a sprite; it is drawn over those added before.
    pub fn render_sprite(&mut self, sprite: RenderSprite)
        ensures
            final(self)@ == (SpriteView {
                sprites: old(self)@.sprites.push(sprite),
                dirty: true,
                ..old(self)@
            }),
            final(self)@.wf(),
    {
        proof {
            use_type_invariant(&*self);
        }
        self.dirty = true;
        let mut sprites: Vec<RenderSprite> = Vec::new();
        core::mem::swap(&mut self.sprites, &mut sprites);
        sprites.push(sprite);
        core::mem::swap(&mut self.sprites, &mut sprites);
    }

    /// Marks the console dirty, so that its geometry is rebuilt and handed
    /// to the device anew before it is drawn again.
    pub fn invalidate(&mut self)
        ensures
            final(self)@ == (SpriteView { dirty: true, ..old(self)@ }),
            final(self)@.wf(),
    {
        proof {
            use_type_invariant(&*self);
        }
        self.dirty = true;
    }

    /// Removes every sprite.
    pub fn cls(&mut self)
        ensures
            final(self)@ == (SpriteView { sprites: Seq::empty(), dirty: true, ..old(self)@ }),
            final(self)@.wf(),
    {
        proof {
            use_type_invariant(&*self);
        }
        self.dirty = true;
        self.sprites = Vec::new();
    }

    /// Gives the console `width` by `height` cells and removes every
    /// sprite.
    pub fn set_char_size(&mut self, width: u32, height: u32)
        ensures
            final(self)@ == (SpriteView {
                width,
                height,
                sprites: Seq::empty(),
                dirty: true,
                ..old(self)@
            }),
            final(self)@.wf(),
    {
        proof {
            use_type_invariant(&*self);
        }
        self.dirty = true;
        self.sprites = Vec::new();
        self.width = width;
        self.height = height;
    }

    /// Whether some sprite paints the pixel at `px` and `py`.
    pub fn paints(&self, px: i64, py: i64) -> (painted: bool)
        ensures
            painted == self@.paints(px as int, py as int),
    {
        let mut i: usize = 0;
        while i < self.sprites.len()
            invariant
                i <= self.sprites.len(),
                forall|k: int| 0 <= k < i ==> !(#[trigger] self@.sprites[k]).paints(px as int, py as int),
            decreases self.sprites.len() - i,
        {
            let s = self.sprites[i];
            if s.x as i64 <= px && px < s.x as i64 + s.width as i64 && s.y as i64 <= py && py
                < s.y as i64 + s.height as i64 {
                assert(self@.sprites[i as int].paints(px as int, py as int));
                return true;
            }
            i += 1;
        }
        false
    }

    /// Rebuilds the geometry if the console is dirty: one quad for each
    /// sprite, in the order of the sprites. The console is clean
    /// afterwards. On a clean console this does nothing.
    pub fn rebuild_geometry(&mut self)
        ensures
            final(self)@ == old(self)@.rebuilt(),
            final(self)@.wf(),
            !final(self)@.dirty,
            final(self)@.geometry.len() == final(self)@.sprites.len(),
    {
        proof {
            use_type_invariant(&*self);
        }
        if !self.dirty {
            return ;
        }
        let mut quads: Vec<RenderSprite> = Vec::new();
        let mut i: usize = 0;
        while i < self.sprites.len()
            invariant
                i <= self.sprites.len(),
                self@ == old(self)@,
                quads@ == self@.sprites.take(i as int),
            decreases self.sprites.len() - i,
        {
            quads.push(self.sprites[i]);
            i += 1;
            assert(quads@ =~= self@.sprites.take(i as int));
        }
        assert(self@.sprites.take(i as int) =~= self@.sprites);
        self.geometry = quads;
        self.dirty = false;
    }

    /// The geometry of the last rebuild.
    pub fn geometry(&self) -> (quads: &Vec<RenderSprite>)
        ensures
            quads@ == self@.geometry,
            !self@.dirty ==> quads@ == self@.sprites,
    {
        proof {
            use_type_invariant(self);
        }
        &self.geometry
    }
}

} // verus!
