//! Builds the list of commands that a text block prints.

use vstd::prelude::*;
use crate::color::Rgba;

verus! {

/// One step of printing into a text block.
pub enum CommandType {
    /// Lays out and writes a text.
    Text { block: String, wrap: bool, center_x: bool, center_y: bool, colored: bool },
    /// Moves the cursor to the start of the next row.
    NewLine {},
    /// Sets the color that glyphs are written in.
    Foreground { col: Rgba },
    /// Sets the color behind the glyphs.
    Background { col: Rgba },
    /// Moves the cursor to the top left and restores the default colors.
    Reset {},
}

/// A command as a mathematical value.
#[allow(inconsistent_fields)]
pub ghost enum CommandView {
    Text { block: Seq<char>, wrap: bool, center_x: bool, center_y: bool, colored: bool },
    NewLine,
    Foreground { col: Rgba },
    Background { col: Rgba },
    Reset,
}

impl View for CommandType {
    type V = CommandView;

    open spec fn view(&self) -> CommandView {
        match *self {
            CommandType::Text { block, wrap, center_x, center_y, colored } => CommandView::Text {
                block: block@,
                wrap,
                center_x,
                center_y,
                colored,
            },
            CommandType::NewLine {  } => CommandView::NewLine,
            CommandType::Foreground { col } => CommandView::Foreground { col },
            CommandType::Background { col } => CommandView::Background { col },
            CommandType::Reset {  } => CommandView::Reset,
        }
    }
}

/// Collects commands; the modes set on it go into each text that is appended
/// afterwards.
pub struct TextBuilder {
    wrap: bool,
    center_x: bool,
    center_y: bool,
    colored: bool,
    commands: Vec<CommandType>,
}

/// A builder as a mathematical value.
pub ghost struct TextBuilderView {
    pub wrap: bool,
    pub center_x: bool,
    pub center_y: bool,
    pub colored: bool,
    pub commands: Seq<CommandView>,
}

impl TextBuilderView {
    /// The builder with one more command at the end.
    pub open spec fn with_command(self, command: CommandView) -> TextBuilderView {
        TextBuilderView { commands: self.commands.push(command), ..self }
    }

    /// The text command that the builder's modes give to `text`.
    pub open spec fn text_command(self, text: Seq<char>) -> CommandView {
        CommandView::Text {
            block: text,
            wrap: self.wrap,
            center_x: self.center_x,
            center_y: self.center_y,
            colored: self.colored,
        }
    }
}

impl View for TextBuilder {
    type V = TextBuilderView;

    closed spec fn view(&self) -> TextBuilderView {
        TextBuilderView {
            wrap: self.wrap,
            center_x: self.center_x,
            center_y: self.center_y,
            colored: self.colored,
            commands: self.commands@.map_values(|c: CommandType| c@),
        }
    }
}

impl TextBuilder {
    /// A builder without commands: no wrapping, no centering, color markup
    /// switched on.
    pub fn empty() -> (b: TextBuilder)
        ensures
            b@ == (TextBuilderView {
                wrap: false,
                center_x: false,
                center_y: false,
                colored: true,
                commands: Seq::empty(),
            }),
    {
        let b = TextBuilder {
            wrap: false,
            center_x: false,
            center_y: false,
            colored: true,
            commands: Vec::new(),
        };
        assert(b@.commands =~= Seq::empty());
        b
    }

    /// Sets whether texts appended from now on wrap at word boundaries.
    pub fn wrap(&mut self, wrap: bool) -> (ret: &mut Self)
        ensures
            ret@ == (TextBuilderView { wrap, ..old(self)@ }),
            *final(self) == *final(ret),
    {
        self.wrap = wrap;
        self
    }

    /// Sets whether texts appended from now on are centered in their row.
    pub fn center_x(&mut self, center_x: bool) -> (ret: &mut Self)
        ensures
            ret@ == (TextBuilderView { center_x, ..old(self)@ }),
            *final(self) == *final(ret),
    {
        self.center_x = center_x;
        self
    }

    /// Sets whether texts appended from now on are centered between the top
    /// and the bottom of the block.
    pub fn center_y(&mut self, center_y: bool) -> (ret: &mut Self)
        ensures
            ret@ == (TextBuilderView { center_y, ..old(self)@ }),
            *final(self) == *final(ret),
    {
        self.center_y = center_y;
        self
    }

    /// Appends a text, to be printed with the modes set at this moment.
    pub fn append(&mut self, text: &str) -> (ret: &mut Self)
        ensures
            ret@ == old(self)@.with_command(old(self)@.text_command(text@)),
            *final(self) == *final(ret),
    {
        let command = CommandType::Text {
            block: text.to_owned(),
            wrap: self.wrap,
            center_x: self.center_x,
            center_y: self.center_y,
            colored: self.colored,
        };
        self.commands.push(command);
        assert(self@.commands =~= old(self)@.commands.push(old(self)@.text_command(text@)));
        self
    }

    /// Appends a text that is centered in its row, whatever the centering
    /// mode; the mode itself stays as it was.
    pub fn centered(&mut self, text: &str) -> (ret: &mut Self)
        ensures
            ret@ == old(self)@.with_command(
                (TextBuilderView { center_x: true, ..old(self)@ }).text_command(text@),
            ),
            *final(self) == *final(ret),
    {
        let command = CommandType::Text {
            block: text.to_owned(),
            wrap: self.wrap,
            center_x: true,
            center_y: self.center_y,
            colored: self.colored,
        };
        self.commands.push(command);
        assert(self@.commands =~= old(self)@.commands.push(
            (TextBuilderView { center_x: true, ..old(self)@ }).text_command(text@),
        ));
        self
    }

    /// Sets whether color markup is read in texts appended from now on.
    pub fn colored_mode(&mut self, colored: bool) -> (ret: &mut Self)
        ensures
            ret@ == (TextBuilderView { colored, ..old(self)@ }),
            *final(self) == *final(ret),
    {
        self.colored = colored;
        self
    }

    /// Switches every mode off and appends a command that moves the cursor
    /// to the top left and restores the default colors.
    pub fn reset(&mut self) -> (ret: &mut Self)
        ensures
            ret@ == (TextBuilderView {
                wrap: false,
                center_x: false,
                center_y: false,
                colored: false,
                commands: old(self)@.commands.push(CommandView::Reset),
            }),
            *final(self) == *final(ret),
    {
        self.wrap = false;
        self.center_x = false;
        self.center_y = false;
        self.colored = false;
        self.commands.push(CommandType::Reset {  });
        assert(self@.commands =~= old(self)@.commands.push(CommandView::Reset));
        self
    }

    /// Appends a command that moves the cursor to the start of the next row.
    pub fn ln(&mut self) -> (ret: &mut Self)
        ensures
            ret@ == old(self)@.with_command(CommandView::NewLine),
            *final(self) == *final(ret),
    {
        self.commands.push(CommandType::NewLine {  });
        assert(self@.commands =~= old(self)@.commands.push(CommandView::NewLine));
        self
    }

    /// Appends a command that sets the color glyphs are written in.
    pub fn fg(&mut self, col: Rgba) -> (ret: &mut Self)
        ensures
            ret@ == old(self)@.with_command(CommandView::Foreground { col }),
            *final(self) == *final(ret),
    {
        self.commands.push(CommandType::Foreground { col });
        assert(self@.commands =~= old(self)@.commands.push(CommandView::Foreground { col }));
        self
    }

    /// Appends a command that sets the color behind the glyphs.
    pub fn bg(&mut self, col: Rgba) -> (ret: &mut Self)
        ensures
            ret@ == old(self)@.with_command(CommandView::Background { col }),
            *final(self) == *final(ret),
    {
        self.commands.push(CommandType::Background { col });
        assert(self@.commands =~= old(self)@.commands.push(CommandView::Background { col }));
        self
    }

    /// Appends a text that wraps at word boundaries, whatever the wrapping
    /// mode; the mode itself stays as it was.
    pub fn line_wrap(&mut self, text: &str) -> (ret: &mut Self)
        ensures
            ret@ == old(self)@.with_command(
                (TextBuilderView { wrap: true, ..old(self)@ }).text_command(text@),
            ),
            *final(self) == *final(ret),
    {
        let command = CommandType::Text {
            block: text.to_owned(),
            wrap: true,
            center_x: self.center_x,
            center_y: self.center_y,
            colored: self.colored,
        };
        self.commands.push(command);
        assert(self@.commands =~= old(self)@.commands.push(
            (TextBuilderView { wrap: true, ..old(self)@ }).text_command(text@),
        ));
        self
    }

    /// The commands collected so far, in the order they were appended.
    pub fn commands(&self) -> (c: &Vec<CommandType>)
        ensures
            c@.map_values(|c: CommandType| c@) == self@.commands,
    {
        &self.commands
    }
}

} // verus!
