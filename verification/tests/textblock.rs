use bracket_terminal::color::Rgba;
use bracket_terminal::geometry::{Padding, Point};
use bracket_terminal::markup::Palette;
use bracket_terminal::textblock::{OutOfSpace, TextBlock, Tile};
use bracket_terminal::textbuilder::{CommandType, TextBuilder};

#[test]
fn textblock_ok() {
    let mut block = TextBlock::new(0, 0, 80, 25);

    let mut buf = TextBuilder::empty();
    buf.ln()
        .centered("Hello World")
        .line_wrap("The quick brown fox jumped over the lazy dog, and just kept on running in an attempt to exceed the console width.")
        .reset();

    assert!(block.print(&buf).is_ok());
}

#[test]
fn textblock_wrap_error() {
    let mut block = TextBlock::new(0, 0, 80, 2);

    let mut buf = TextBuilder::empty();
    buf.ln()
        .centered("Hello World")
        .line_wrap("The quick brown fox jumped over the lazy dog, and just kept on running in an attempt to exceed the console width.")
        .line_wrap("The quick brown fox jumped over the lazy dog, and just kept on running in an attempt to exceed the console width.")
        .reset();

    assert!(block.print(&buf).is_err());
}

fn glyphs_of_row(block: &TextBlock, y: i32) -> Vec<u16> {
    (0..block.width()).map(|x| block.tile(x, y).unwrap().glyph).collect()
}

#[test]
fn print_writes_text_at_cursor_row() {
    let mut block = TextBlock::new(0, 0, 10, 3);
    let mut buf = TextBuilder::empty();
    buf.ln().append("Hi!");
    assert_eq!(block.print(&buf), Ok(()));
    assert_eq!(glyphs_of_row(&block, 0), vec![0; 10]);
    assert_eq!(glyphs_of_row(&block, 1), vec![72, 105, 33, 0, 0, 0, 0, 0, 0, 0]);
    let cursor = block.get_cursor();
    assert_eq!((cursor.x, cursor.y), (3, 1));
    let white = Rgba::from_u8(255, 255, 255, 255);
    let black = Rgba::from_u8(0, 0, 0, 255);
    assert_eq!(block.tile(0, 1), Some(Tile { glyph: 72, fg: white, bg: black }));
}

#[test]
fn print_wraps_words() {
    let mut block = TextBlock::new(0, 0, 8, 4);
    let mut buf = TextBuilder::empty();
    buf.line_wrap("one two three");
    assert_eq!(block.print(&buf), Ok(()));
    // rows hold at most 7 glyphs; a wrapped line keeps the space behind its last word
    assert_eq!(glyphs_of_row(&block, 0), vec![111, 110, 101, 32, 116, 119, 111, 32]);
    assert_eq!(glyphs_of_row(&block, 1), vec![116, 104, 114, 101, 101, 0, 0, 0]);
}

#[test]
fn print_failure_leaves_block_unchanged() {
    let mut block = TextBlock::new(0, 0, 4, 1);
    let mut first = TextBuilder::empty();
    first.append("ab");
    assert_eq!(block.print(&first), Ok(()));
    let before: Vec<u16> = glyphs_of_row(&block, 0);
    let cursor_before = block.get_cursor();

    let mut second = TextBuilder::empty();
    second.fg(Rgba::from_u8(1, 2, 3, 4)).append("x").append("wxyz");
    assert_eq!(block.print(&second), Err(OutOfSpace));
    assert_eq!(glyphs_of_row(&block, 0), before);
    assert_eq!(block.get_cursor(), cursor_before);
    assert_eq!(block.tile(0, 0).unwrap().fg, Rgba::from_u8(255, 255, 255, 255));
}

#[test]
fn print_colored_markup() {
    let mut palette = Palette::new();
    let red = Rgba::from_u8(255, 0, 0, 255);
    palette.register("red", red);
    let mut block = TextBlock::new(0, 0, 12, 1);
    block.set_palette(palette);
    let mut buf = TextBuilder::empty();
    buf.append("#[red]ab#[]cd");
    assert_eq!(block.print(&buf), Ok(()));
    let white = Rgba::from_u8(255, 255, 255, 255);
    assert_eq!(block.tile(0, 0).unwrap().glyph, 97);
    assert_eq!(block.tile(0, 0).unwrap().fg, red);
    assert_eq!(block.tile(1, 0).unwrap().fg, red);
    assert_eq!(block.tile(2, 0).unwrap().glyph, 99);
    assert_eq!(block.tile(2, 0).unwrap().fg, white);
    assert_eq!(block.tile(4, 0).unwrap().glyph, 0);
}

#[test]
fn out_of_space_message() {
    assert_eq!(OutOfSpace.to_string(), "Out of text-buffer space.");
}

#[test]
fn long_line_is_cut_to_fit() {
    // 80 glyphs do not fit the 79 cells that a row of 80 holds: one goes to the next row
    let text: String = "0123456789".repeat(8);
    let mut block = TextBlock::new(0, 0, 80, 25);
    let mut buf = TextBuilder::empty();
    buf.append(&text);
    assert_eq!(block.print(&buf), Ok(()));
    let row0 = glyphs_of_row(&block, 0);
    assert_eq!(row0[78], 56);
    assert_eq!(row0[79], 0);
    let row1 = glyphs_of_row(&block, 1);
    assert_eq!(row1[0], 57);
    assert_eq!(row1[1], 0);
    assert_eq!(block.get_cursor(), Point::new(1, 0));

    // in a block of one row the cut line has no row to go to
    let mut small = TextBlock::new(0, 0, 80, 1);
    assert_eq!(small.print(&buf), Err(OutOfSpace));
    assert_eq!(glyphs_of_row(&small, 0), vec![0; 80]);

    // 79 glyphs fit the row
    let mut fits = TextBuilder::empty();
    fits.append(&text[..79]);
    assert_eq!(small.print(&fits), Ok(()));
    assert_eq!(glyphs_of_row(&small, 0)[78], 56);
}

#[test]
fn print_centers_text() {
    let mut block = TextBlock::new(0, 0, 11, 5);
    let mut buf = TextBuilder::empty();
    buf.center_y(true).centered("abc");
    assert_eq!(block.print(&buf), Ok(()));
    // column 11 / 2 - 3 / 2 = 4, row 5 / 2 - 1 / 2 = 2
    assert_eq!(glyphs_of_row(&block, 2), vec![0, 0, 0, 0, 97, 98, 99, 0, 0, 0, 0]);
    assert_eq!(glyphs_of_row(&block, 0), vec![0; 11]);
    assert_eq!(block.get_cursor(), Point::new(7, 2));
}

#[test]
fn print_commands_change_pen() {
    let red = Rgba::from_u8(200, 0, 0, 255);
    let grey = Rgba::from_u8(9, 9, 9, 255);
    let mut block = TextBlock::new(0, 0, 6, 3);
    let mut buf = TextBuilder::empty();
    buf.fg(red).bg(grey).append("a").ln().ln().append("b").reset().append("c");
    assert_eq!(block.print(&buf), Ok(()));
    assert_eq!(block.tile(0, 0), Some(Tile { glyph: 99, fg: Rgba::white(), bg: Rgba::black() }));
    assert_eq!(block.tile(0, 2), Some(Tile { glyph: 98, fg: red, bg: grey }));
    assert_eq!(block.tile(0, 1).unwrap().glyph, 0);
    assert_eq!(block.get_cursor(), Point::new(1, 0));
    assert_eq!(block.tile(6, 0), None);
    assert_eq!(block.tile(0, 3), None);
    assert_eq!(block.tile(-1, 0), None);
}

#[test]
fn print_word_too_wide_is_out_of_space() {
    let mut block = TextBlock::new(0, 0, 5, 10);
    let mut buf = TextBuilder::empty();
    buf.line_wrap("a wider word");
    assert_eq!(block.print(&buf), Err(OutOfSpace));
    let mut narrow = TextBlock::new(0, 0, 1, 10);
    let mut one = TextBuilder::empty();
    one.append("a");
    assert_eq!(narrow.print(&one), Err(OutOfSpace));
    let mut none = TextBlock::new(0, 0, 0, 0);
    assert_eq!(none.print(&one), Err(OutOfSpace));
    let mut empty = TextBuilder::empty();
    empty.append("");
    assert_eq!(none.print(&empty), Ok(()));
}

#[test]
fn padding_is_rounded_up() {
    let mut block = TextBlock::new(0, 0, 10, 4);
    assert_eq!(block.get_padding(), Padding::zero());
    assert_eq!(block.horizontal_padding(7), 0);
    block.set_padding(Padding { x1: 250, x2: 250, y1: 100, y2: 0 });
    assert_eq!(block.get_padding(), Padding { x1: 250, x2: 250, y1: 100, y2: 0 });
    assert_eq!(block.horizontal_padding(3), 2);
    assert_eq!(block.horizontal_padding(4), 2);
    assert_eq!(block.horizontal_padding(0), 0);
    assert_eq!(block.vertical_padding(10), 1);
    assert_eq!(block.vertical_padding(11), 2);
    assert_eq!(block.len_with_padding(&vec![1u8, 2, 3]), 5);
    // "abcdefg" takes 7 + 4 cells: more than the 9 that a row holds
    let mut buf = TextBuilder::empty();
    buf.append("abcdefg");
    assert_eq!(block.print(&buf), Ok(()));
    assert_eq!(glyphs_of_row(&block, 0), vec![97, 98, 99, 100, 101, 102, 103, 0, 0, 0]);
    let mut long = TextBuilder::empty();
    long.append("abcdefghijk");
    assert_eq!(block.print(&long), Ok(()));
    assert_eq!(glyphs_of_row(&block, 0), vec![97, 98, 99, 100, 101, 102, 103, 104, 105, 0]);
    assert_eq!(glyphs_of_row(&block, 1), vec![106, 107, 0, 0, 0, 0, 0, 0, 0, 0]);
}

#[test]
fn block_accessors() {
    let red = Rgba::from_u8(200, 0, 0, 255);
    let blue = Rgba::from_u8(0, 0, 200, 255);
    let mut block = TextBlock::new_with_color(3, 4, 2, 2, red, blue);
    assert_eq!((block.width(), block.height()), (2, 2));
    assert_eq!(block.get_origin(), Point::new(3, 4));
    assert_eq!(block.get_cursor(), Point::new(0, 0));
    assert_eq!(block.cell(1, 1), Tile { glyph: 0, fg: red, bg: blue });
    block.set_origin(Point::from_tuple((7, 8)));
    assert_eq!(block.get_origin(), Point::new(7, 8));
    block.move_to(1, 1);
    assert_eq!(block.get_cursor(), Point::new(1, 1));
    block.fg(blue);
    block.bg(red);
    let mut buf = TextBuilder::empty();
    buf.append("x");
    assert_eq!(block.print(&buf), Ok(()));
    assert_eq!(block.cell(0, 1), Tile { glyph: 120, fg: blue, bg: red });
    assert_eq!(block.get_cursor(), Point::new(1, 1));
}

#[test]
fn builder_collects_commands() {
    let mut buf = TextBuilder::empty();
    assert_eq!(buf.commands().len(), 0);
    buf.wrap(true).center_y(true).append("a").colored_mode(false).centered("b").center_x(true).line_wrap("c").reset().append("d");
    assert_eq!(buf.commands().len(), 5);
    let commands = buf.commands();
    assert!(matches!(&commands[0], CommandType::Text { block, wrap: true, center_x: false, center_y: true, colored: true } if block == "a"));
    assert!(matches!(&commands[1], CommandType::Text { block, wrap: true, center_x: true, center_y: true, colored: false } if block == "b"));
    assert!(matches!(&commands[2], CommandType::Text { block, wrap: true, center_x: true, center_y: true, colored: false } if block == "c"));
    assert!(matches!(&commands[3], CommandType::Reset {}));
    assert!(matches!(&commands[4], CommandType::Text { block, wrap: false, center_x: false, center_y: false, colored: false } if block == "d"));
    let mut other = TextBuilder::empty();
    other.ln().fg(Rgba::white()).bg(Rgba::black());
    let commands = other.commands();
    assert!(matches!(&commands[0], CommandType::NewLine {}));
    assert!(matches!(&commands[1], CommandType::Foreground { col } if *col == Rgba::white()));
    assert!(matches!(&commands[2], CommandType::Background { col } if *col == Rgba::black()));
}

#[test]
fn markup_off_shows_markers() {
    let mut block = TextBlock::new(0, 0, 12, 1);
    let mut buf = TextBuilder::empty();
    buf.colored_mode(false).append("#[]a");
    assert_eq!(block.print(&buf), Ok(()));
    assert_eq!(glyphs_of_row(&block, 0)[..4], [35, 91, 93, 97]);
    // with markup on, a text whose markup shows nothing is taken as it stands
    let mut plain = TextBlock::new(0, 0, 12, 1);
    let mut on = TextBuilder::empty();
    on.append("#[red");
    assert_eq!(plain.print(&on), Ok(()));
    assert_eq!(glyphs_of_row(&plain, 0)[..5], [35, 91, 114, 101, 100]);
}
