//! A block of text cells that is filled by printing commands.
//!
//! A text block is a rectangle of cells with a cursor and a pair of current
//! colors. Printing lays a text out in lines, puts the lines below each
//! other from the cursor's row on, and writes their glyphs into the cells.
//! A print that does not fit reports that it is out of space and leaves the
//! block as it was.

use vstd::prelude::*;
use std::collections::HashMap;
use crate::codepage::FontCharType;
use crate::color::Rgba;
use crate::geometry::{
    lemma_cell_index,
    padded,
    padded_len,
    padding_cells,
    Padding,
    Point,
    MAX_PADDING,
};
use crate::codepage::cp437_glyphs;
use crate::layout::{
    break_lines,
    chunk_count,
    chunked_lines,
    laid_out,
    lemma_chunk_count,
    lemma_chunked_lines_rows,
    lines_view,
};
use crate::markup::{chars_of, parse_markup, styled, Palette, StyledView};
use crate::textbuilder::{CommandType, CommandView, TextBuilder};

verus! {

/// One cell: a glyph with its two colors.
#[derive(Clone, Copy, Debug, PartialEq, Eq, Structural)]
pub struct Tile {
    pub glyph: FontCharType,
    pub fg: Rgba,
    pub bg: Rgba,
}

/// The error of a print that does not fit into the block.
#[derive(Clone, Copy, Debug, PartialEq, Eq)]
pub struct OutOfSpace;

impl OutOfSpace {
    /// The message that describes the error.
    pub fn to_string(&self) -> (message: String)
        ensures
            message@ == "Out of text-buffer space."@,
    {
        "Out of text-buffer space.".to_owned()
    }
}

/// The number `v` if it is an `i32`, else the nearest `i32`.
pub open spec fn clamp_i32(v: int) -> i32 {
    if v < i32::MIN {
        i32::MIN
    } else if v > i32::MAX {
        i32::MAX
    } else {
        v as i32
    }
}

/// The number of glyphs in the first `upto` lines.
pub open spec fn glyphs_before(lines: Seq<Seq<FontCharType>>, upto: int) -> nat
    decreases upto,
{
    if upto <= 0 {
        0
    } else {
        glyphs_before(lines, upto - 1) + lines[upto - 1].len()
    }
}

/// The cells after a line of glyphs was written from cell `base` on. The
/// glyph at position `j` of the line is the one numbered `first + j` of its
/// text and takes its color from `colors`; past the end of `colors` it takes
/// `fg`.
pub open spec fn with_line(
    buffer: Seq<Tile>,
    line: Seq<FontCharType>,
    base: int,
    first: int,
    colors: Seq<Rgba>,
    fg: Rgba,
    bg: Rgba,
) -> Seq<Tile> {
    Seq::new(
        buffer.len(),
        |p: int|
            if base <= p < base + line.len() {
                Tile { glyph: line[p - base], fg: glyph_color(colors, first + p - base, fg), bg }
            } else {
                buffer[p]
            },
    )
}

/// The color of the glyph numbered `k`.
pub open spec fn glyph_color(colors: Seq<Rgba>, k: int, fg: Rgba) -> Rgba {
    if 0 <= k < colors.len() {
        colors[k]
    } else {
        fg
    }
}

/// Whether `marked` holds the color of each glyph that is not to take the
/// current color: for the glyph numbered `k` the color `colors[k]`, where
/// that differs from `fg`, and nothing for any other glyph.
pub open spec fn marks_colors(marked: Map<usize, Rgba>, colors: Seq<Rgba>, fg: Rgba) -> bool {
    forall|k: usize|
        #![trigger marked.contains_key(k)]
        {
            &&& marked.contains_key(k) <==> (k < colors.len() && colors[k as int] != fg)
            &&& marked.contains_key(k) ==> marked[k] == colors[k as int]
        }
}

/// A text block as a mathematical value.
pub ghost struct TextBlockView {
    pub x: i32,
    pub y: i32,
    pub width: i32,
    pub height: i32,
    pub fg: Rgba,
    pub bg: Rgba,
    pub buffer: Seq<Tile>,
    pub cursor: (i32, i32),
    pub padding: Padding,
    pub palette: Seq<(Seq<char>, Rgba)>,
}

impl TextBlockView {
    /// The block has one cell for each column of each row.
    pub open spec fn wf(self) -> bool {
        &&& 0 <= self.width
        &&& 0 <= self.height
        &&& self.width * self.height <= i32::MAX
        &&& self.buffer.len() == self.width * self.height
    }

    /// The cell at column `x` of row `y`.
    pub open spec fn cell(self, x: int, y: int) -> Tile {
        self.buffer[y * self.width + x]
    }

    /// The characters of a text and their colors. With markup switched on,
    /// the text is what its markup shows, unless that is nothing; otherwise
    /// it is taken as it stands, in the current color.
    pub open spec fn shown_text(self, block: Seq<char>, colored: bool) -> StyledView {
        let parsed = styled(block, self.palette);
        if colored && parsed.chars.len() > 0 {
            parsed
        } else {
            StyledView { chars: block, colors: Seq::empty() }
        }
    }

    /// The row of the first line of a text of `lines` lines: the cursor's
    /// row, or the row that centers the lines between top and bottom.
    pub open spec fn first_row(self, lines: nat, center_y: bool) -> int {
        if center_y {
            padded_len(self.height as nat, self.padding.vertical()) as int / 2 - padded_len(
                lines,
                self.padding.vertical(),
            ) as int / 2
        } else {
            self.cursor.1 as int
        }
    }

    /// The column of the first glyph of a line of `glyphs` glyphs: the first
    /// column, or the column that centers the line in its row.
    pub open spec fn first_column(self, glyphs: nat, center_x: bool) -> int {
        if center_x {
            padded_len(self.width as nat, self.padding.horizontal()) as int / 2 - padded_len(
                glyphs,
                self.padding.horizontal(),
            ) as int / 2
        } else {
            0
        }
    }

    /// The index of the cell that takes the first glyph of line `i`, where
    /// the cells are numbered row by row.
    pub open spec fn line_base(
        self,
        lines: Seq<Seq<FontCharType>>,
        row0: int,
        center_x: bool,
        i: int,
    ) -> int {
        (row0 + i) * self.width + self.first_column(lines[i].len(), center_x)
    }

    /// Line `i` is empty or all its glyphs fall on cells of the block.
    pub open spec fn line_fits(
        self,
        lines: Seq<Seq<FontCharType>>,
        row0: int,
        center_x: bool,
        i: int,
    ) -> bool {
        lines[i].len() > 0 ==> 0 <= self.line_base(lines, row0, center_x, i) && self.line_base(
            lines,
            row0,
            center_x,
            i,
        ) + lines[i].len() <= self.buffer.len()
    }

    /// Every glyph of every line falls on a cell of the block.
    pub open spec fn lines_fit(self, lines: Seq<Seq<FontCharType>>, row0: int, center_x: bool) -> bool {
        forall|i: int| 0 <= i < lines.len() ==> #[trigger] self.line_fits(lines, row0, center_x, i)
    }

    /// The cells after the first `upto` lines were written, one after the
    /// other.
    pub open spec fn with_lines(
        self,
        lines: Seq<Seq<FontCharType>>,
        upto: int,
        row0: int,
        center_x: bool,
        colors: Seq<Rgba>,
    ) -> Seq<Tile>
        decreases upto,
    {
        if upto <= 0 {
            self.buffer
        } else {
            with_line(
                self.with_lines(lines, upto - 1, row0, center_x, colors),
                lines[upto - 1],
                self.line_base(lines, row0, center_x, upto - 1),
                glyphs_before(lines, upto - 1) as int,
                colors,
                self.fg,
                self.bg,
            )
        }
    }

    /// The block after a text was printed; `None` if the text cannot be
    /// laid out or some glyph falls outside the block. The cursor ends
    /// behind the last glyph of the last line, in the row of the first
    /// line.
    pub open spec fn after_text(
        self,
        block: Seq<char>,
        wrap: bool,
        center_x: bool,
        center_y: bool,
        colored: bool,
    ) -> Option<TextBlockView> {
        let shown = self.shown_text(block, colored);
        match laid_out(shown.chars, wrap, self.width - 1, self.padding.horizontal()) {
            None => None,
            Some(lines) => {
                let row0 = self.first_row(lines.len(), center_y);
                if self.lines_fit(lines, row0, center_x) {
                    Some(
                        TextBlockView {
                            buffer: self.with_lines(
                                lines,
                                lines.len() as int,
                                row0,
                                center_x,
                                shown.colors,
                            ),
                            cursor: (
                                clamp_i32(
                                    self.first_column(lines.last().len(), center_x)
                                        + lines.last().len(),
                                ),
                                clamp_i32(row0),
                            ),
                            ..self
                        },
                    )
                } else {
                    None
                }
            },
        }
    }

    /// The block after one command; `None` if the command is a text that
    /// does not fit.
    pub open spec fn after_command(self, command: CommandView) -> Option<TextBlockView> {
        match command {
            CommandView::Text { block, wrap, center_x, center_y, colored } => self.after_text(
                block,
                wrap,
                center_x,
                center_y,
                colored,
            ),
            CommandView::NewLine => Some(
                TextBlockView {
                    cursor: (
                        0,
                        if self.cursor.1 < i32::MAX {
                            (self.cursor.1 + 1) as i32
                        } else {
                            self.cursor.1
                        },
                    ),
                    ..self
                },
            ),
            CommandView::Foreground { col } => Some(TextBlockView { fg: col, ..self }),
            CommandView::Background { col } => Some(TextBlockView { bg: col, ..self }),
            CommandView::Reset => Some(
                TextBlockView {
                    cursor: (0, 0),
                    fg: Rgba::spec_white(),
                    bg: Rgba::spec_black(),
                    ..self
                },
            ),
        }
    }

    /// The block after the commands were carried out in order; `None` if
    /// one of them does not fit.
    pub open spec fn after_commands(self, commands: Seq<CommandView>) -> Option<TextBlockView>
        decreases commands.len(),
    {
        if commands.len() == 0 {
            Some(self)
        } else {
            match self.after_commands(commands.drop_last()) {
                Some(block) => block.after_command(commands.last()),
                None => None,
            }
        }
    }
}

/// A rectangle of text cells with a cursor, current colors and padding.
pub struct TextBlock {
    x: i32,
    y: i32,
    width: i32,
    height: i32,
    fg: Rgba,
    bg: Rgba,
    buffer: Vec<Tile>,
    cursor: (i32, i32),
    padding: Padding,
    palette: Palette,
}

impl View for TextBlock {
    type V = TextBlockView;

    closed spec fn view(&self) -> TextBlockView {
        TextBlockView {
            x: self.x,
            y: self.y,
            width: self.width,
            height: self.height,
            fg: self.fg,
            bg: self.bg,
            buffer: self.buffer@,
            cursor: self.cursor,
            padding: self.padding,
            palette: self.palette@,
        }
    }
}

impl TextBlock {
    /// What holds of every value of this type.
    #[verifier::type_invariant]
    pub open spec fn well_formed(self) -> bool {
        self@.wf()
    }

    /// Creates a block of `width` by `height` cells whose top left cell
    /// stands at column `x` and row `y` of a console. Every cell holds glyph
    /// 0, white on black.
    pub fn new(x: i32, y: i32, width: i32, height: i32) -> (block: TextBlock)
        requires
            0 <= width,
            0 <= height,
            width * height <= i32::MAX,
        ensures
            block@ == (TextBlockView {
                x,
                y,
                width,
                height,
                fg: Rgba::spec_white(),
                bg: Rgba::spec_black(),
                buffer: Seq::new(
                    (width * height) as nat,
                    |i: int| Tile { glyph: 0, fg: Rgba::spec_white(), bg: Rgba::spec_black() },
                ),
                cursor: (0, 0),
                padding: Padding::spec_zero(),
                palette: Seq::empty(),
            }),
            block@.wf(),
    {
        TextBlock::new_with_color(x, y, width, height, Rgba::white(), Rgba::black())
    }

    /// Creates a block like `new`, with the given colors as the current
    /// colors and in every cell.
    pub fn new_with_color(x: i32, y: i32, width: i32, height: i32, fg: Rgba, bg: Rgba) -> (block:
        TextBlock)
        requires
            0 <= width,
            0 <= height,
            width * height <= i32::MAX,
        ensures
            block@ == (TextBlockView {
                x,
                y,
                width,
                height,
                fg,
                bg,
                buffer: Seq::new((width * height) as nat, |i: int| Tile { glyph: 0, fg, bg }),
                cursor: (0, 0),
                padding: Padding::spec_zero(),
                palette: Seq::empty(),
            }),
            block@.wf(),
    {
        let cells: usize = cell_count(width, height);
        let mut buffer: Vec<Tile> = Vec::new();
        let mut i: usize = 0;
        while i < cells
            invariant
                i <= cells,
                buffer@.len() == i,
                forall|k: int| 0 <= k < i ==> buffer@[k] == (Tile { glyph: 0, fg, bg }),
            decreases cells - i,
        {
            buffer.push(Tile { glyph: 0, fg, bg });
            i += 1;
        }
        assert(buffer@ =~= Seq::new((width * height) as nat, |i: int| Tile { glyph: 0, fg, bg }));
        TextBlock {
            x,
            y,
            width,
            height,
            fg,
            bg,
            buffer,
            cursor: (0, 0),
            padding: Padding::zero(),
            palette: Palette::new(),
        }
    }

    /// Sets the color that glyphs are written in.
    pub fn fg(&mut self, fg: Rgba)
        ensures
            final(self)@ == (TextBlockView { fg, ..old(self)@ }),
    {
        proof {
            use_type_invariant(&*self);
        }
        self.fg = fg;
    }

    /// Sets the color behind the glyphs.
    pub fn bg(&mut self, bg: Rgba)
        ensures
            final(self)@ == (TextBlockView { bg, ..old(self)@ }),
    {
        proof {
            use_type_invariant(&*self);
        }
        self.bg = bg;
    }

    /// Moves the cursor to column `x` of row `y`.
    pub fn move_to(&mut self, x: i32, y: i32)
        ensures
            final(self)@ == (TextBlockView { cursor: (x, y), ..old(self)@ }),
    {
        proof {
            use_type_invariant(&*self);
        }
        self.cursor = (x, y);
    }

    /// The cursor: its column as `x`, its row as `y`.
    pub fn get_cursor(&self) -> (p: Point)
        ensures
            p == (Point { x: self@.cursor.0, y: self@.cursor.1 }),
    {
        Point::from_tuple(self.cursor)
    }

    /// Where the block's top left cell stands on a console.
    pub fn get_origin(&self) -> (p: Point)
        ensures
            p == (Point { x: self@.x, y: self@.y }),
    {
        Point::new(self.x, self.y)
    }

    /// Moves the block's top left cell to `origin`.
    pub fn set_origin(&mut self, origin: Point)
        ensures
            final(self)@ == (TextBlockView { x: origin.x, y: origin.y, ..old(self)@ }),
    {
        proof {
            use_type_invariant(&*self);
        }
        self.x = origin.x;
        self.y = origin.y;
    }

    /// The number of columns.
    pub fn width(&self) -> (w: i32)
        ensures
            w == self@.width,
            0 <= w,
    {
        proof {
            use_type_invariant(self);
        }
        self.width
    }

    /// The number of rows.
    pub fn height(&self) -> (h: i32)
        ensures
            h == self@.height,
            0 <= h,
    {
        proof {
            use_type_invariant(self);
        }
        self.height
    }

    /// The cell at column `x` of row `y`, if the block has such a cell.
    pub fn tile(&self, x: i32, y: i32) -> (t: Option<Tile>)
        ensures
            self@.wf(),
            t == if 0 <= x < self@.width && 0 <= y < self@.height {
                Some(self@.buffer[y * self@.width + x])
            } else {
                None
            },
    {
        proof {
            use_type_invariant(self);
        }
        if 0 <= x && x < self.width && 0 <= y && y < self.height {
            let idx = self.at(x, y);
            Some(self.buffer[idx])
        } else {
            None
        }
    }

    /// The cell at column `x` of row `y`.
    pub fn cell(&self, x: i32, y: i32) -> (t: Tile)
        requires
            0 <= x < self@.width,
            0 <= y < self@.height,
        ensures
            t == self@.buffer[y * self@.width + x],
    {
        let idx = self.at(x, y);
        self.buffer[idx]
    }

    /// The index of the cell at column `x` of row `y`.
    fn at(&self, x: i32, y: i32) -> (idx: usize)
        requires
            0 <= x < self@.width,
            0 <= y < self@.height,
        ensures
            idx == y * self@.width + x,
            idx < self@.buffer.len(),
    {
        proof {
            use_type_invariant(self);
            lemma_cell_index(x as int, y as int, self.width as int, self.height as int);
        }
        ((y as i64) * (self.width as i64) + (x as i64)) as usize
    }

    /// The colors that markup can name.
    pub fn set_palette(&mut self, palette: Palette)
        ensures
            final(self)@ == (TextBlockView { palette: palette@, ..old(self)@ }),
    {
        proof {
            use_type_invariant(&*self);
        }
        self.palette = palette;
    }

    /// Sets the room around each glyph.
    pub fn set_padding(&mut self, padding: Padding)
        ensures
            final(self)@ == (TextBlockView { padding, ..old(self)@ }),
    {
        proof {
            use_type_invariant(&*self);
        }
        self.padding = padding;
    }

    /// The room around each glyph.
    pub fn get_padding(&self) -> (padding: Padding)
        ensures
            padding == self@.padding,
    {
        self.padding
    }

    /// The whole rows that the padding of `num_lines` lines takes, at most
    /// the largest `usize`.
    pub fn vertical_padding(&self, num_lines: usize) -> (rows: usize)
        ensures
            rows == if padding_cells(num_lines as nat, self@.padding.vertical()) <= usize::MAX {
                padding_cells(num_lines as nat, self@.padding.vertical())
            } else {
                usize::MAX as nat
            },
    {
        padding_of(num_lines, self.padding.y1 as u32 + self.padding.y2 as u32)
    }

    /// The whole cells that the padding of `num_chars` glyphs takes, at most
    /// the largest `usize`.
    pub fn horizontal_padding(&self, num_chars: usize) -> (cells: usize)
        ensures
            cells == if padding_cells(num_chars as nat, self@.padding.horizontal())
                <= usize::MAX {
                padding_cells(num_chars as nat, self@.padding.horizontal())
            } else {
                usize::MAX as nat
            },
    {
        padding_of(num_chars, self.padding.x1 as u32 + self.padding.x2 as u32)
    }

    /// The whole cells that a line takes with the padding of its glyphs.
    pub fn len_with_padding<T>(&self, vec: &Vec<T>) -> (cells: usize)
        requires
            padded_len(vec@.len(), self@.padding.horizontal()) <= usize::MAX,
        ensures
            cells == padded_len(vec@.len(), self@.padding.horizontal()),
    {
        vec.len() + self.horizontal_padding(vec.len())
    }

    /// Carries out the commands of `text` in order. A text is laid out in
    /// lines of one cell less than the block is wide: wrapped at its spaces,
    /// or cut wherever a line is full. Its lines go below each other from
    /// the cursor's row on, or centered between top and bottom; each starts
    /// in the first column, or centered in its row. If a line cannot be
    /// laid out or a glyph would fall outside the block, the text does not
    /// fit: nothing at all is changed then, and the error is returned.
    pub fn print(&mut self, text: &TextBuilder) -> (r: Result<(), OutOfSpace>)
        ensures
            match old(self)@.after_commands(text@.commands) {
                Some(block) => r is Ok && final(self)@ == block,
                None => r is Err && final(self)@ == old(self)@,
            },
            final(self)@.wf(),
    {
        proof {
            use_type_invariant(&*self);
        }
        let saved_buffer = copy_tiles(&self.buffer);
        let saved_cursor = self.cursor;
        let saved_fg = self.fg;
        let saved_bg = self.bg;
        let commands = text.commands();
        let ghost all = text@.commands;
        let mut i: usize = 0;
        assert(all.take(0) =~= Seq::<CommandView>::empty());
        while i < commands.len()
            invariant
                i <= commands.len(),
                all == commands@.map_values(|c: CommandType| c@),
                all == text@.commands,
                saved_buffer@ == old(self)@.buffer,
                saved_cursor == old(self)@.cursor,
                saved_fg == old(self)@.fg,
                saved_bg == old(self)@.bg,
                self@.wf(),
                old(self)@.wf(),
                (TextBlockView {
                    buffer: saved_buffer@,
                    cursor: saved_cursor,
                    fg: saved_fg,
                    bg: saved_bg,
                    ..self@
                }) == old(self)@,
                old(self)@.after_commands(all.take(i as int)) == Some(self@),
            decreases commands.len() - i,
        {
            proof {
                assert(all.take(i + 1).drop_last() =~= all.take(i as int));
                assert(all.take(i + 1).last() == commands@[i as int]@);
            }
            let fits = match &commands[i] {
                CommandType::Text { block, wrap, center_x, center_y, colored } => self.print_text(
                    block.as_str(),
                    *wrap,
                    *center_x,
                    *center_y,
                    *colored,
                ),
                CommandType::NewLine {  } => {
                    self.cursor = (
                        0,
                        if self.cursor.1 < i32::MAX {
                            self.cursor.1 + 1
                        } else {
                            self.cursor.1
                        },
                    );
                    true
                },
                CommandType::Foreground { col } => {
                    self.fg = *col;
                    true
                },
                CommandType::Background { col } => {
                    self.bg = *col;
                    true
                },
                CommandType::Reset {  } => {
                    self.cursor = (0, 0);
                    self.fg = Rgba::white();
                    self.bg = Rgba::black();
                    true
                },
            };
            if !fits {
                proof {
                    lemma_commands_none_stays(old(self)@, all, i + 1);
                }
                self.buffer = saved_buffer;
                self.cursor = saved_cursor;
                self.fg = saved_fg;
                self.bg = saved_bg;
                return Err(OutOfSpace);
            }
            i += 1;
        }
        assert(all.take(i as int) =~= all);
        Ok(())
    }

    /// Prints one text. Returns whether it fit; if it did not, nothing is
    /// changed.
    fn print_text(&mut self, block: &str, wrap: bool, center_x: bool, center_y: bool, colored: bool) -> (fits:
        bool)
        ensures
            match old(self)@.after_text(block@, wrap, center_x, center_y, colored) {
                Some(after) => fits && final(self)@ == after,
                None => !fits && final(self)@ == old(self)@,
            },
            final(self)@.wf(),
    {
        proof {
            use_type_invariant(&*self);
        }
        let raw = chars_of(block);
        let mut colors: Vec<Rgba> = Vec::new();
        let mut chars: Vec<char> = raw;
        if colored {
            let parsed = parse_markup(&chars, &self.palette);
            if parsed.chars.len() > 0 {
                chars = parsed.chars;
                colors = parsed.colors;
            }
        }
        assert(chars@ == self@.shown_text(block@, colored).chars);
        assert(colors@ =~= self@.shown_text(block@, colored).colors);
        let pad: u32 = self.padding.x1 as u32 + self.padding.x2 as u32;
        let lines = match break_lines(&chars, wrap, self.width - 1, pad) {
            Some(lines) => lines,
            None => {
                return false;
            },
        };
        let row0: i128 = self.first_row(lines.len(), center_y);
        if !self.lines_fit(&lines, row0, center_x) {
            return false;
        }
        proof {
            lemma_laid_out_not_empty(chars@, wrap, self.width - 1, pad as nat);
        }
        let last_len: usize = lines[lines.len() - 1].len();
        let column: i128 = self.first_column(last_len, center_x) + last_len as i128;
        let marked = mark_colors(&colors, self.fg);
        self.write_lines(&lines, row0, center_x, &marked, Ghost(colors@));
        self.cursor = (clamp(column), clamp(row0));
        true
    }

    /// Computes the row of the first line of a text of `lines` lines.
    fn first_row(&self, lines: usize, center_y: bool) -> (row: i128)
        ensures
            row == self@.first_row(lines as nat, center_y),
            -0x100_0000_0000_0000_0000 <= row <= 0x100_0000_0000_0000_0000,
    {
        proof {
            use_type_invariant(self);
        }
        if center_y {
            let pad: u32 = self.padding.y1 as u32 + self.padding.y2 as u32;
            let total: u128 = padded(self.height as usize, pad);
            let text: u128 = padded(lines, pad);
            (total / 2) as i128 - (text / 2) as i128
        } else {
            self.cursor.1 as i128
        }
    }

    /// Computes the column of the first glyph of a line of `glyphs` glyphs.
    fn first_column(&self, glyphs: usize, center_x: bool) -> (column: i128)
        ensures
            column == self@.first_column(glyphs as nat, center_x),
            -0x100_0000_0000_0000_0000 <= column <= 0x100_0000_0000_0000_0000,
    {
        proof {
            use_type_invariant(self);
        }
        if center_x {
            let pad: u32 = self.padding.x1 as u32 + self.padding.x2 as u32;
            let total: u128 = padded(self.width as usize, pad);
            let text: u128 = padded(glyphs, pad);
            (total / 2) as i128 - (text / 2) as i128
        } else {
            0
        }
    }

    /// Computes the index of the cell that takes the first glyph of line
    /// `i`.
    fn line_base(&self, lines: &Vec<Vec<FontCharType>>, row0: i128, center_x: bool, i: usize) -> (base:
        i128)
        requires
            i < lines.len(),
            -0x100_0000_0000_0000_0000 <= row0 <= 0x100_0000_0000_0000_0000,
        ensures
            base == self@.line_base(lines_view(lines@), row0 as int, center_x, i as int),
            -0x1_0000_0000_0000_0000_0000_0000_0000 <= base
                <= 0x1_0000_0000_0000_0000_0000_0000_0000,
    {
        proof {
            use_type_invariant(self);
        }
        let row: i128 = row0 + i as i128;
        let width: i128 = self.width as i128;
        assert(-0x1_0000_0000_0000_0000_0000_0000_000 <= row * width
            <= 0x1_0000_0000_0000_0000_0000_0000_000) by (nonlinear_arith)
            requires
                -0x200_0000_0000_0000_0000 <= row <= 0x200_0000_0000_0000_0000,
                0 <= width <= 0x8000_0000,
        ;
        row * width + self.first_column(lines[i].len(), center_x)
    }

    /// Checks that every glyph of every line falls on a cell of the block.
    fn lines_fit(&self, lines: &Vec<Vec<FontCharType>>, row0: i128, center_x: bool) -> (fit: bool)
        requires
            -0x100_0000_0000_0000_0000 <= row0 <= 0x100_0000_0000_0000_0000,
        ensures
            fit == self@.lines_fit(lines_view(lines@), row0 as int, center_x),
    {
        let ghost all = lines_view(lines@);
        let mut i: usize = 0;
        while i < lines.len()
            invariant
                i <= lines.len(),
                all == lines_view(lines@),
                -0x100_0000_0000_0000_0000 <= row0 <= 0x100_0000_0000_0000_0000,
                forall|k: int| 0 <= k < i ==> #[trigger] self@.line_fits(all, row0 as int, center_x, k),
            decreases lines.len() - i,
        {
            let len: usize = lines[i].len();
            if len > 0 {
                let base: i128 = self.line_base(lines, row0, center_x, i);
                if base < 0 || base + len as i128 > self.buffer.len() as i128 {
                    assert(!self@.line_fits(all, row0 as int, center_x, i as int));
                    return false;
                }
            }
            assert(self@.line_fits(all, row0 as int, center_x, i as int));
            i += 1;
        }
        true
    }

    /// Writes the glyphs of the lines into their cells.
    fn write_lines(
        &mut self,
        lines: &Vec<Vec<FontCharType>>,
        row0: i128,
        center_x: bool,
        marked: &HashMap<usize, Rgba>,
        Ghost(colors): Ghost<Seq<Rgba>>,
    )
        requires
            -0x100_0000_0000_0000_0000 <= row0 <= 0x100_0000_0000_0000_0000,
            colors.len() <= usize::MAX,
            marks_colors(marked@, colors, old(self)@.fg),
            old(self)@.lines_fit(lines_view(lines@), row0 as int, center_x),
        ensures
            final(self)@ == (TextBlockView {
                buffer: old(self)@.with_lines(
                    lines_view(lines@),
                    lines.len() as int,
                    row0 as int,
                    center_x,
                    colors,
                ),
                ..old(self)@
            }),
            final(self)@.wf(),
    {
        broadcast use vstd::std_specs::hash::group_hash_axioms;

        proof {
            use_type_invariant(&*self);
        }
        let ghost all = lines_view(lines@);
        let ghost start = self@;
        let mut i: usize = 0;
        let mut first: u128 = 0;
        while i < lines.len()
            invariant
                i <= lines.len(),
                all == lines_view(lines@),
                start == old(self)@,
                start.wf(),
                colors.len() <= usize::MAX,
                marks_colors(marked@, colors, start.fg),
                -0x100_0000_0000_0000_0000 <= row0 <= 0x100_0000_0000_0000_0000,
                start.lines_fit(all, row0 as int, center_x),
                first == glyphs_before(all, i as int),
                first <= i * 0x1_0000_0000_0000_0000,
                self@.buffer.len() == start.buffer.len(),
                self@ == (TextBlockView {
                    buffer: start.with_lines(all, i as int, row0 as int, center_x, colors),
                    ..start
                }),
            decreases lines.len() - i,
        {
            let len: usize = lines[i].len();
            let ghost before = self@.buffer;
            assert(start.line_fits(all, row0 as int, center_x, i as int));
            if len > 0 {
                let base: i128 = self.line_base(lines, row0, center_x, i);
                let at: usize = base as usize;
                let mut j: usize = 0;
                assert(before =~= with_line(
                    before,
                    all[i as int].take(0),
                    at as int,
                    first as int,
                    colors,
                    start.fg,
                    start.bg,
                ));
                while j < len
                    invariant
                        j <= len,
                        i < lines.len(),
                        len == lines@[i as int]@.len(),
                        all == lines_view(lines@),
                        start.wf(),
                colors.len() <= usize::MAX,
                marks_colors(marked@, colors, start.fg),
                        at + len <= start.buffer.len(),
                        first <= i * 0x1_0000_0000_0000_0000,
                        self@ == (TextBlockView {
                            buffer: with_line(
                                before,
                                all[i as int].take(j as int),
                                at as int,
                                first as int,
                                colors,
                                start.fg,
                                start.bg,
                            ),
                            ..start
                        }),
                        before.len() == start.buffer.len(),
                    decreases len - j,
                {
                    let number: u128 = first + j as u128;
                    let fg = if number <= usize::MAX as u128 {
                        match marked.get(&(number as usize)) {
                            Some(color) => *color,
                            None => self.fg,
                        }
                    } else {
                        self.fg
                    };
                    assert(fg == glyph_color(colors, number as int, start.fg));
                    let tile = Tile { glyph: lines[i][j], fg, bg: self.bg };
                    self.buffer[at + j] = tile;
                    j += 1;
                    assert(self@.buffer =~= with_line(
                        before,
                        all[i as int].take(j as int),
                        at as int,
                        first as int,
                        colors,
                        start.fg,
                        start.bg,
                    ));
                }
                assert(all[i as int].take(len as int) =~= all[i as int]);
            } else {
                assert(before =~= with_line(
                    before,
                    all[i as int],
                    start.line_base(all, row0 as int, center_x, i as int),
                    first as int,
                    colors,
                    start.fg,
                    start.bg,
                ));
            }
            first = first + len as u128;
            i += 1;
        }
    }
}

/// Notes the color of each glyph that is not to take the current color
/// `fg`, under the number of the glyph.
fn mark_colors(colors: &Vec<Rgba>, fg: Rgba) -> (marked: HashMap<usize, Rgba>)
    ensures
        marks_colors(marked@, colors@, fg),
{
    broadcast use vstd::std_specs::hash::group_hash_axioms;

    let mut marked: HashMap<usize, Rgba> = HashMap::new();
    let mut i: usize = 0;
    while i < colors.len()
        invariant
            i <= colors.len(),
            forall|k: usize|
                #![trigger marked@.contains_key(k)]
                {
                    &&& marked@.contains_key(k) <==> (k < i && colors@[k as int] != fg)
                    &&& marked@.contains_key(k) ==> marked@[k] == colors@[k as int]
                },
        decreases colors.len() - i,
    {
        let color = colors[i];
        if !(color == fg) {
            marked.insert(i, color);
        }
        i += 1;
    }
    marked
}

/// The number `v` if it is an `i32`, else the nearest `i32`.
fn clamp(v: i128) -> (r: i32)
    ensures
        r == clamp_i32(v as int),
{
    if v < i32::MIN as i128 {
        i32::MIN
    } else if v > i32::MAX as i128 {
        i32::MAX
    } else {
        v as i32
    }
}

/// The number of cells of a block.
fn cell_count(width: i32, height: i32) -> (cells: usize)
    requires
        0 <= width,
        0 <= height,
        width * height <= i32::MAX,
    ensures
        cells == width * height,
{
    assert(0 <= width * height) by (nonlinear_arith)
        requires
            0 <= width,
            0 <= height,
    ;
    ((width as i64) * (height as i64)) as usize
}

/// Computes the whole cells that the padding of `count` glyphs takes.
fn padding_of(count: usize, per_mille: u32) -> (cells: usize)
    requires
        per_mille <= MAX_PADDING,
    ensures
        cells == if padding_cells(count as nat, per_mille as nat) <= usize::MAX {
            padding_cells(count as nat, per_mille as nat)
        } else {
            usize::MAX as nat
        },
{
    let total: u128 = padded(count, per_mille) - count as u128;
    if total > usize::MAX as u128 {
        usize::MAX
    } else {
        total as usize
    }
}

/// Copies a list of cells.
fn copy_tiles(tiles: &Vec<Tile>) -> (copy: Vec<Tile>)
    ensures
        copy@ == tiles@,
{
    let mut copy: Vec<Tile> = Vec::new();
    let mut i: usize = 0;
    while i < tiles.len()
        invariant
            i <= tiles.len(),
            copy@ == tiles@.take(i as int),
        decreases tiles.len() - i,
    {
        copy.push(tiles[i]);
        i += 1;
        assert(copy@ =~= tiles@.take(i as int));
    }
    assert(tiles@.take(i as int) =~= tiles@);
    copy
}

/// A text is laid out on at least one line.
pub proof fn lemma_laid_out_not_empty(text: Seq<char>, wrap: bool, limit: int, pad: nat)
    ensures
        laid_out(text, wrap, limit, pad) is Some ==> laid_out(text, wrap, limit, pad)->0.len() > 0,
{
    if wrap {
        crate::layout::lemma_wrapped_not_empty(crate::layout::glyph_words(text), limit, pad);
    } else {
        crate::layout::lemma_chunked_not_empty(crate::codepage::cp437_glyphs(text), limit, pad);
    }
}

/// In a grid of `w` columns, the cell at column `x` of row `y` is among
/// the first `len` cells of row `r` just if it stands in that row, in a
/// column before `len`.
proof fn lemma_cell_in_row(r: int, y: int, x: int, len: int, w: int)
    requires
        0 <= x < w,
        0 <= len <= w,
    ensures
        (r * w <= y * w + x < r * w + len) <==> (y == r && x < len),
{
    if y > r {
        assert(y * w >= r * w + w) by (nonlinear_arith)
            requires
                y >= r + 1,
                w >= 0,
        ;
    } else if y < r {
        assert(y * w + w <= r * w) by (nonlinear_arith)
            requires
                y + 1 <= r,
                w >= 0,
        ;
    }
}

/// A line of at least one glyph and fewer glyphs than a row has cells, laid
/// from the first column of row `r` on, falls on cells of a block of `h`
/// rows just if `r` is one of these rows.
proof fn lemma_line_in_block(r: int, len: int, w: int, h: int)
    requires
        1 <= len < w,
        0 <= h,
    ensures
        (0 <= r * w && r * w + len <= w * h) <==> (0 <= r < h),
{
    assert(w * h == h * w) by (nonlinear_arith);
    if r < 0 {
        assert(r * w < 0) by (nonlinear_arith)
            requires
                r <= -1,
                w >= 1,
        ;
    } else if r >= h {
        assert(r * w >= h * w) by (nonlinear_arith)
            requires
                r >= h,
                w >= 0,
        ;
    } else {
        assert(0 <= r * w && r * w + w <= h * w) by (nonlinear_arith)
            requires
                0 <= r,
                r + 1 <= h,
                w >= 0,
        ;
    }
}

/// Lines that are all full hold as many glyphs as there are lines times
/// the glyphs of one.
proof fn lemma_glyphs_before_full(lines: Seq<Seq<FontCharType>>, upto: int, limit: int)
    requires
        0 <= upto <= lines.len(),
        forall|j: int| 0 <= j < upto ==> (#[trigger] lines[j]).len() == limit,
    ensures
        glyphs_before(lines, upto) == upto * limit,
    decreases upto,
{
    if upto > 0 {
        lemma_glyphs_before_full(lines, upto - 1, limit);
        assert((upto - 1) * limit + limit == upto * limit) by (nonlinear_arith);
    } else {
        assert(0 * limit == 0) by (nonlinear_arith);
    }
}

/// Writing lines changes cells and leaves their number as it is.
pub proof fn lemma_with_lines_len(
    block: TextBlockView,
    lines: Seq<Seq<FontCharType>>,
    upto: int,
    row0: int,
    center_x: bool,
    colors: Seq<Rgba>,
)
    ensures
        block.with_lines(lines, upto, row0, center_x, colors).len() == block.buffer.len(),
    decreases upto,
{
    if upto > 0 {
        lemma_with_lines_len(block, lines, upto - 1, row0, center_x, colors);
    }
}

/// After lines of no more glyphs than a row has cells were written from
/// the first column on, one line to a row from row `row0` on, a cell holds
/// the glyph of its line that stands in its column, if there is one, and
/// else what it held before.
pub proof fn lemma_with_lines_cell(
    block: TextBlockView,
    lines: Seq<Seq<FontCharType>>,
    upto: int,
    row0: int,
    colors: Seq<Rgba>,
    x: int,
    y: int,
)
    requires
        block.wf(),
        0 <= upto <= lines.len(),
        0 <= x < block.width,
        0 <= y < block.height,
        forall|i: int| 0 <= i < lines.len() ==> (#[trigger] lines[i]).len() <= block.width,
    ensures
        block.with_lines(lines, upto, row0, false, colors).len() == block.buffer.len(),
        0 <= y * block.width + x < block.buffer.len(),
        block.with_lines(lines, upto, row0, false, colors)[y * block.width + x] == if row0 <= y
            < row0 + upto && x < lines[y - row0].len() {
            Tile {
                glyph: lines[y - row0][x],
                fg: glyph_color(colors, glyphs_before(lines, y - row0) + x, block.fg),
                bg: block.bg,
            }
        } else {
            block.buffer[y * block.width + x]
        },
    decreases upto,
{
    lemma_cell_index(x, y, block.width as int, block.height as int);
    if upto > 0 {
        let i = upto - 1;
        lemma_with_lines_cell(block, lines, i, row0, colors, x, y);
        assert(lines[i].len() <= block.width);
        lemma_cell_in_row(row0 + i, y, x, lines[i].len() as int, block.width as int);
        assert(block.line_base(lines, row0, false, i) == (row0 + i) * block.width);
    }
}

/// A text that is printed unwrapped, uncentered and without padding into a
/// block of at least two columns goes onto rows of one cell less than the
/// block is wide, from the cursor's row on: row `k` of the text takes the
/// glyphs from `k * (width - 1)` up to `(k + 1) * (width - 1)`, from the
/// first column on, and the last column is never written. The text fits
/// just if it has no glyphs, or the cursor stands in a row of the block and
/// the rows that the text needs do not go beyond the last row. Every cell
/// that takes no glyph stays as it was.
pub proof fn lemma_unwrapped_text_rows(block: TextBlockView, text: Seq<char>, colored: bool)
    requires
        block.wf(),
        block.width >= 2,
        block.padding.horizontal() == 0,
    ensures
        ({
            let shown = block.shown_text(text, colored);
            let glyphs = cp437_glyphs(shown.chars);
            let limit = block.width - 1;
            let rows = chunk_count(glyphs.len(), limit);
            let row0 = block.cursor.1 as int;
            let after = block.after_text(text, false, false, false, colored);
            &&& after is Some <==> glyphs.len() == 0 || (0 <= row0 && row0 + rows
                <= block.height)
            &&& after is Some ==> after->0.wf() && after->0.width == block.width
                && after->0.height == block.height
            &&& after is Some ==> forall|x: int, y: int|
                0 <= x < block.width && 0 <= y < block.height ==> #[trigger] after->0.cell(x, y)
                    == if row0 <= y < row0 + rows && x < limit && (y - row0) * limit + x
                    < glyphs.len() {
                    Tile {
                        glyph: glyphs[(y - row0) * limit + x],
                        fg: glyph_color(shown.colors, (y - row0) * limit + x, block.fg),
                        bg: block.bg,
                    }
                } else {
                    block.cell(x, y)
                }
        }),
{
    let shown = block.shown_text(text, colored);
    let glyphs = cp437_glyphs(shown.chars);
    let n = glyphs.len();
    let w = block.width as int;
    let h = block.height as int;
    let limit = block.width - 1;
    let rows = chunk_count(n, limit);
    let row0 = block.cursor.1 as int;
    lemma_chunked_lines_rows(glyphs, limit);
    let lines = chunked_lines(glyphs, limit, 0)->0;
    assert(laid_out(shown.chars, false, limit, block.padding.horizontal()) == Some(lines));
    assert(block.first_row(lines.len(), false) == row0);
    let after = block.after_text(text, false, false, false, colored);
    assert(after is Some <==> block.lines_fit(lines, row0, false));
    if n > 0 {
        lemma_chunk_count(n, limit);
    }
    // the lines fall on cells of the block just if their rows are rows of the block
    assert forall|i: int| 0 <= i < rows implies (#[trigger] block.line_fits(lines, row0, false, i)
        <==> (n == 0 || 0 <= row0 + i < h)) by {
        assert(block.line_base(lines, row0, false, i) == (row0 + i) * w);
        assert(lines[i].len() <= limit);
        if n > 0 {
            assert(lines[i].len() >= 1);
            lemma_line_in_block(row0 + i, lines[i].len() as int, w, h);
        } else {
            assert(lines[i].len() == 0);
        }
    }
    if n == 0 {
        assert(block.lines_fit(lines, row0, false));
    } else if 0 <= row0 && row0 + rows <= h {
        assert(block.lines_fit(lines, row0, false));
    } else {
        assert(block.line_fits(lines, row0, false, 0) <==> 0 <= row0 + 0 < h);
        assert(block.line_fits(lines, row0, false, rows - 1) <==> 0 <= row0 + (rows - 1) < h);
        assert(!block.lines_fit(lines, row0, false));
    }
    if after is Some {
        let written = block.with_lines(lines, lines.len() as int, row0, false, shown.colors);
        assert(after->0.buffer == written);
        assert forall|x: int, y: int| 0 <= x < w && 0 <= y < h implies #[trigger] after->0.cell(
            x,
            y,
        ) == if row0 <= y < row0 + rows && x < limit && (y - row0) * limit + x < n {
            Tile {
                glyph: glyphs[(y - row0) * limit + x],
                fg: glyph_color(shown.colors, (y - row0) * limit + x, block.fg),
                bg: block.bg,
            }
        } else {
            block.cell(x, y)
        } by {
            lemma_with_lines_cell(block, lines, lines.len() as int, row0, shown.colors, x, y);
            if row0 <= y < row0 + rows {
                let k = y - row0;
                lemma_glyphs_before_full(lines, k, limit);
                assert(lines[k].len() <= limit);
                assert(0 <= k * limit <= n);
                if x < lines[k].len() {
                    assert(lines[k][x] == glyphs[k * limit + x]);
                } else if x < limit {
                    // behind the end of the last line
                    assert(k * limit + x >= n) by {
                        if k < rows - 1 {
                            assert(lines[k].len() == limit);
                        }
                    }
                }
            }
        }
        lemma_with_lines_len(block, lines, lines.len() as int, row0, false, shown.colors);
    }
}

/// Printing a single text is printing that text: the block after the one
/// command is the block after the text, and the print fails just if the
/// text does not fit.
pub proof fn lemma_print_one_text(
    block: TextBlockView,
    text: Seq<char>,
    wrap: bool,
    center_x: bool,
    center_y: bool,
    colored: bool,
)
    ensures
        block.after_commands(
            seq![CommandView::Text { block: text, wrap, center_x, center_y, colored }],
        ) == block.after_text(text, wrap, center_x, center_y, colored),
{
    let commands = seq![CommandView::Text { block: text, wrap, center_x, center_y, colored }];
    assert(commands.drop_last() =~= Seq::<CommandView>::empty());
    assert(block.after_commands(commands.drop_last()) == Some(block));
}

/// Once a command does not fit, no later command changes that.
pub proof fn lemma_commands_none_stays(block: TextBlockView, commands: Seq<CommandView>, upto: int)
    requires
        0 <= upto <= commands.len(),
        block.after_commands(commands.take(upto)) is None,
    ensures
        block.after_commands(commands) is None,
    decreases commands.len() - upto,
{
    if upto == commands.len() {
        assert(commands.take(upto) =~= commands);
    } else {
        assert(commands.take(upto + 1).drop_last() =~= commands.take(upto));
        lemma_commands_none_stays(block, commands, upto + 1);
    }
}

} // verus!
