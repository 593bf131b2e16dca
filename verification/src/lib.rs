//! Verified core of a console terminal renderer.
//!
//! A terminal shows a stack of consoles: grids of character cells, freely
//! placed glyphs and sprites. The consoles are drawn into a backing surface
//! at a logical resolution, and the backing surface onto the window at the
//! largest scale that keeps its proportions. Everything here is whole
//! numbers and plain data: this crate decides what is to be drawn and
//! where, and leaves the drawing to its user.
//!
//! - [`scaler`] maps the logical size onto the window; [`canvas`] fits a
//!   canvas into a browser window.
//! - [`console`], [`fancy`] and [`sprite`] hold the three kinds of consoles
//!   with their geometry; [`registry`] holds the consoles and fonts of a
//!   terminal in drawing order.
//! - [`compositor`] says what a frame consists of, [`resize`] what follows
//!   from a new window size, [`frame`] how a frame starts and ends,
//!   [`mainloop`] when frames are asked for, [`mailbox`] how events reach
//!   the frame, [`timing`] how frames are counted, and [`platform`] what a
//!   terminal starts with.
//! - [`textblock`], [`textbuilder`], [`textrender`], [`layout`] and
//!   [`markup`] print text into blocks of cells; [`gui_helpers`] draws boxes
//!   and bars; [`drawbatch`] collects drawing commands.
//! - [`codepage`], [`color`] and [`geometry`] hold glyphs, colors, points
//!   and paddings.

pub mod canvas;
pub mod codepage;
pub mod color;
pub mod compositor;
pub mod console;
pub mod drawbatch;
pub mod fancy;
pub mod frame;
pub mod geometry;
pub mod gui_helpers;
pub mod layout;
pub mod mailbox;
pub mod mainloop;
pub mod markup;
pub mod platform;
pub mod registry;
pub mod resize;
pub mod scaler;
pub mod sprite;
pub mod textblock;
pub mod textbuilder;
pub mod textrender;
pub mod timing;
