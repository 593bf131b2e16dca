//! A list of drawing commands, collected now and carried out later.

use vstd::prelude::*;
use crate::codepage::FontCharType;
use crate::color::ColorPair;
use crate::geometry::{Point, PointF};

verus! {

/// One drawing command.
#[derive(Clone, Copy, Debug, PartialEq, Eq)]
pub enum DrawCommand {
    /// Sets the cell at `pos` of a character-grid console.
    SetCell { pos: Point, color: ColorPair, glyph: FontCharType },
    /// Places a glyph on a free-position console: at `position`
    /// thousandths of a cell, on layer `z_order`, turned by `rotation`
    /// thousandths of a radian and scaled by `scale` thousandths.
    SetFancy {
        position: PointF,
        z_order: i32,
        rotation: i32,
        color: ColorPair,
        glyph: FontCharType,
        scale: PointF,
    },
}

/// Drawing commands in the order in which they were given.
pub struct DrawBatch {
    batch: Vec<DrawCommand>,
}

impl View for DrawBatch {
    type V = Seq<DrawCommand>;

    closed spec fn view(&self) -> Seq<DrawCommand> {
        self.batch@
    }
}

impl DrawBatch {
    /// A batch without commands.
    pub fn new() -> (batch: DrawBatch)
        ensures
            batch@ == Seq::<DrawCommand>::empty(),
    {
        DrawBatch { batch: Vec::new() }
    }

    /// The number of commands.
    pub fn len(&self) -> (n: usize)
        ensures
            n == self@.len(),
    {
        self.batch.len()
    }

    /// The command at index `i`.
    pub fn get(&self, i: usize) -> (command: Option<DrawCommand>)
        ensures
            command == if i < self@.len() {
                Some(self@[i as int])
            } else {
                None
            },
    {
        if i < self.batch.len() {
            Some(self.batch[i])
        } else {
            None
        }
    }

    /// Adds a command at the end.
    pub fn push(&mut self, command: DrawCommand)
        ensures
            final(self)@ == old(self)@.push(command),
    {
        self.batch.push(command);
    }

    /// Adds the command that sets the cell at `pos`.
    pub fn set(&mut self, pos: Point, color: ColorPair, glyph: FontCharType)
        ensures
            final(self)@ == old(self)@.push(DrawCommand::SetCell { pos, color, glyph }),
    {
        self.batch.push(DrawCommand::SetCell { pos, color, glyph });
    }

    /// Adds the command that places a glyph freely.
    pub fn set_fancy(
        &mut self,
        position: PointF,
        z_order: i32,
        rotation: i32,
        scale: PointF,
        color: ColorPair,
        glyph: FontCharType,
    )
        ensures
            final(self)@ == old(self)@.push(
                DrawCommand::SetFancy { position, z_order, rotation, color, glyph, scale },
            ),
    {
        self.batch.push(DrawCommand::SetFancy { position, z_order, rotation, color, glyph, scale });
    }
}

} // verus!
