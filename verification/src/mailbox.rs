//! The mailbox between the platform's events and the frame.
//!
//! Events arrive whenever the platform delivers them. Each kind of event
//! has one slot that holds the latest value: a later event replaces an
//! earlier one of its kind. Once per frame the slots are handed to the
//! terminal and emptied.

use vstd::prelude::*;
use crate::geometry::{clamped, truncated_quotient};
use crate::platform::BTerm;
use crate::resize::WindowSize;

verus! {

/// The latest event of each kind since the last frame.
#[derive(Debug, PartialEq, Eq)]
pub struct EventMailbox {
    /// The code of the key pressed last.
    pub key: Option<u32>,
    /// Whether the left button was clicked.
    pub left_click: bool,
    /// Whether shift, control and alt were held with the last key.
    pub modifiers: (bool, bool, bool),
    /// The page element clicked last.
    pub button: Option<String>,
    /// The window size reported last.
    pub size: Option<(u32, u32)>,
    /// Where the pointer was seen last, in logical pixels.
    pub mouse_pos: (i32, i32),
}

/// A pointer coordinate multiplied by a scale factor in thousandths, its
/// fraction cut off, and kept within the `i32` numbers.
pub open spec fn scaled_coordinate(position: i32, scale: u32) -> i32 {
    clamped(
        truncated_quotient(position as int * scale as int, 1000),
        i32::MIN as int,
        i32::MAX as int,
    ) as i32
}

impl EventMailbox {
    /// The mailbox with every slot empty.
    pub open spec fn spec_empty() -> EventMailbox {
        EventMailbox {
            key: None,
            left_click: false,
            modifiers: (false, false, false),
            button: None,
            size: None,
            mouse_pos: (0, 0),
        }
    }

    /// The mailbox after a frame: every slot empty but the pointer's, which
    /// stays where it was seen last.
    pub open spec fn cleared(self) -> EventMailbox {
        EventMailbox { mouse_pos: self.mouse_pos, ..EventMailbox::spec_empty() }
    }

    /// The terminal after it was handed what the mailbox holds. The
    /// pointer's position is scaled to physical pixels.
    pub open spec fn delivered(self, bterm: BTerm, scale: u32) -> BTerm {
        BTerm {
            key: self.key,
            left_click: self.left_click,
            shift: self.modifiers.0,
            control: self.modifiers.1,
            alt: self.modifiers.2,
            web_button: self.button,
            mouse_pos: (
                scaled_coordinate(self.mouse_pos.0, scale),
                scaled_coordinate(self.mouse_pos.1, scale),
            ),
            ..bterm
        }
    }

    /// Creates a mailbox with every slot empty.
    pub fn new() -> (mailbox: EventMailbox)
        ensures
            mailbox == EventMailbox::spec_empty(),
    {
        EventMailbox {
            key: None,
            left_click: false,
            modifiers: (false, false, false),
            button: None,
            size: None,
            mouse_pos: (0, 0),
        }
    }

    /// Notes a key press with the modifiers held.
    pub fn post_key(&mut self, code: u32, shift: bool, control: bool, alt: bool)
        ensures
            *final(self) == (EventMailbox {
                key: Some(code),
                modifiers: (shift, control, alt),
                ..*old(self)
            }),
    {
        self.key = Some(code);
        self.modifiers = (shift, control, alt);
    }

    /// Notes whether the left button is clicked.
    pub fn post_click(&mut self, clicked: bool)
        ensures
            *final(self) == (EventMailbox { left_click: clicked, ..*old(self) }),
    {
        self.left_click = clicked;
    }

    /// Notes a click on a page element.
    pub fn post_button(&mut self, id: String)
        ensures
            *final(self) == (EventMailbox { button: Some(id), ..*old(self) }),
    {
        self.button = Some(id);
    }

    /// Notes a new window size. It replaces a size noted before and not
    /// yet taken.
    pub fn post_resize(&mut self, width: u32, height: u32)
        ensures
            *final(self) == (EventMailbox { size: Some((width, height)), ..*old(self) }),
    {
        self.size = Some((width, height));
    }

    /// Notes where the pointer is.
    pub fn post_mouse(&mut self, x: i32, y: i32)
        ensures
            *final(self) == (EventMailbox { mouse_pos: (x, y), ..*old(self) }),
    {
        self.mouse_pos = (x, y);
    }

    /// Takes the window size noted last, if one was noted since it was
    /// last taken, and empties the slot.
    pub fn take_resize(&mut self) -> (size: Option<WindowSize>)
        ensures
            *final(self) == (EventMailbox { size: None, ..*old(self) }),
            size == match old(self).size {
                Some(s) => Some(WindowSize { width: s.0, height: s.1 }),
                None => None,
            },
    {
        let size = match self.size {
            Some(s) => Some(WindowSize { width: s.0, height: s.1 }),
            None => None,
        };
        self.size = None;
        size
    }

    /// Hands the terminal what the mailbox holds: key, click, modifiers,
    /// clicked page element, and the pointer's position multiplied by the
    /// scale factor, in thousandths.
    pub fn deliver(&self, bterm: &mut BTerm, scale: u32)
        ensures
            *final(bterm) == self.delivered(*old(bterm), scale),
    {
        bterm.key = self.key;
        bterm.left_click = self.left_click;
        bterm.shift = self.modifiers.0;
        bterm.control = self.modifiers.1;
        bterm.alt = self.modifiers.2;
        bterm.web_button = match &self.button {
            Some(id) => Some(id.clone()),
            None => None,
        };
        bterm.mouse_pos = (
            scale_coordinate(self.mouse_pos.0, scale),
            scale_coordinate(self.mouse_pos.1, scale),
        );
    }

    /// Empties every slot but the pointer's.
    pub fn clear(&mut self)
        ensures
            *final(self) == old(self).cleared(),
    {
        self.key = None;
        self.left_click = false;
        self.modifiers = (false, false, false);
        self.button = None;
        self.size = None;
    }
}

/// Forgets the input that the terminal was handed for the frame.
pub fn clear_input_state(bterm: &mut BTerm)
    ensures
        *final(bterm) == (BTerm {
            key: None,
            left_click: false,
            shift: false,
            control: false,
            alt: false,
            web_button: None,
            ..*old(bterm)
        }),
{
    bterm.key = None;
    bterm.left_click = false;
    bterm.shift = false;
    bterm.control = false;
    bterm.alt = false;
    bterm.web_button = None;
}

/// Multiplies a pointer coordinate by a scale factor in thousandths.
pub fn scale_coordinate(position: i32, scale: u32) -> (scaled: i32)
    ensures
        scaled == scaled_coordinate(position, scale),
{
    assert(-0x8000_0000 * 0xffff_ffff <= position as int * scale as int <= 0x8000_0000
        * 0xffff_ffff) by (nonlinear_arith)
        requires
            -0x8000_0000 <= position as int <= 0x7fff_ffff,
            0 <= scale as int <= 0xffff_ffff,
    ;
    let product: i64 = (position as i64) * (scale as i64);
    let magnitude: u64 = if product < 0 {
        (-product) as u64
    } else {
        product as u64
    };
    let quotient: u64 = magnitude / 1000;
    let signed: i64 = if product < 0 {
        -(quotient as i64)
    } else {
        quotient as i64
    };
    if signed < i32::MIN as i64 {
        i32::MIN
    } else if signed > i32::MAX as i64 {
        i32::MAX
    } else {
        signed as i32
    }
}

/// Between two frames only the latest window size counts: of two sizes
/// noted in a row, the first is dropped and the second is the one taken.
pub proof fn lemma_latest_resize_wins(mailbox: EventMailbox, first: (u32, u32), second: (u32, u32))
    ensures
        (EventMailbox {
            size: Some(second),
            ..(EventMailbox { size: Some(first), ..mailbox })
        }) == (EventMailbox { size: Some(second), ..mailbox }),
{
}

} // verus!
