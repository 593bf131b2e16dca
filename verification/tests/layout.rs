use bracket_terminal::codepage::{string_to_cp437, to_cp437};
use bracket_terminal::color::Rgba;
use bracket_terminal::layout::{break_lines, chunk_glyphs, split_words, wrap_words};
use bracket_terminal::markup::{chars_of, parse_markup, Palette};

fn glyphs(text: &str) -> Vec<u16> {
    string_to_cp437(text)
}

#[test]
fn code_page_glyphs() {
    assert_eq!(to_cp437('A'), 65);
    assert_eq!(to_cp437(' '), 32);
    assert_eq!(to_cp437('~'), 126);
    assert_eq!(to_cp437('\u{263A}'), 1);
    assert_eq!(to_cp437('\u{2302}'), 127);
    assert_eq!(to_cp437('\u{00C7}'), 128);
    assert_eq!(to_cp437('\u{00E9}'), 130);
    assert_eq!(to_cp437('\u{2591}'), 176);
    assert_eq!(to_cp437('\u{2593}'), 178);
    assert_eq!(to_cp437('\u{2502}'), 179);
    assert_eq!(to_cp437('\u{2510}'), 191);
    assert_eq!(to_cp437('\u{2514}'), 192);
    assert_eq!(to_cp437('\u{2500}'), 196);
    assert_eq!(to_cp437('\u{2554}'), 201);
    assert_eq!(to_cp437('\u{2550}'), 205);
    assert_eq!(to_cp437('\u{2518}'), 217);
    assert_eq!(to_cp437('\u{250C}'), 218);
    assert_eq!(to_cp437('\u{2588}'), 219);
    assert_eq!(to_cp437('\u{2248}'), 247);
    assert_eq!(to_cp437('\u{00A0}'), 255);
    // outside the code page
    assert_eq!(to_cp437('\u{20AC}'), 0);
    assert_eq!(to_cp437('\n'), 0);
    assert_eq!(to_cp437('\u{7F}'), 0);
}

#[test]
fn code_page_has_each_glyph_once() {
    let mut seen = vec![0u32; 256];
    let mut c = 0u32;
    while c < 0x3000 {
        if let Some(ch) = char::from_u32(c) {
            let g = to_cp437(ch) as usize;
            assert!(g < 256);
            seen[g] += 1;
        }
        c += 1;
    }
    for g in 1..256 {
        assert_eq!(seen[g], 1, "glyph {}", g);
    }
}

#[test]
fn text_to_glyphs() {
    assert_eq!(string_to_cp437("Hi \u{2665}!"), vec![72, 105, 32, 3, 33]);
    assert_eq!(string_to_cp437(""), Vec::<u16>::new());
    assert_eq!(chars_of("a\u{00E9}b"), vec!['a', '\u{00E9}', 'b']);
}

#[test]
fn words_are_split_at_every_space() {
    assert_eq!(split_words(&chars_of("one two")), vec![glyphs("one"), glyphs("two")]);
    assert_eq!(split_words(&chars_of("")), vec![glyphs("")]);
    assert_eq!(split_words(&chars_of(" ")), vec![glyphs(""), glyphs("")]);
    assert_eq!(split_words(&chars_of("a  b ")), vec![glyphs("a"), glyphs(""), glyphs("b"), glyphs("")]);
}

#[test]
fn words_wrap_at_the_limit() {
    let words = split_words(&chars_of("one two three"));
    // a line keeps the space behind its last word
    assert_eq!(wrap_words(&words, 7, 0), Some(vec![glyphs("one two "), glyphs("three")]));
    assert_eq!(wrap_words(&words, 8, 0), Some(vec![glyphs("one two "), glyphs("three")]));
    assert_eq!(wrap_words(&words, 13, 0), Some(vec![glyphs("one two three")]));
    assert_eq!(wrap_words(&words, 5, 0), Some(vec![glyphs("one "), glyphs("two "), glyphs("three")]));
    // a word wider than a line cannot be placed
    assert_eq!(wrap_words(&words, 4, 0), None);
    assert_eq!(wrap_words(&words, -1, 0), None);
    // empty words only add spaces
    let spaces = split_words(&chars_of("a   "));
    assert_eq!(wrap_words(&spaces, 2, 0), Some(vec![glyphs("a   ")]));
    let nothing = split_words(&chars_of(""));
    assert_eq!(wrap_words(&nothing, -1, 0), Some(vec![glyphs("")]));
}

#[test]
fn wrapping_counts_padding() {
    let words = split_words(&chars_of("ab cd"));
    // each glyph takes one and a half cells: "ab cd" takes 5 + 3 = 8
    assert_eq!(wrap_words(&words, 9, 500), Some(vec![glyphs("ab cd")]));
    // "ab " takes 3 + 2, "cd" takes 2 + 1: 8 cells are not enough for both
    assert_eq!(wrap_words(&words, 7, 500), Some(vec![glyphs("ab "), glyphs("cd")]));
    assert_eq!(wrap_words(&words, 2, 500), None);
}

#[test]
fn glyphs_are_cut_at_the_limit() {
    let text = glyphs("abcdefgh");
    assert_eq!(chunk_glyphs(&text, 8, 0), Some(vec![glyphs("abcdefgh")]));
    assert_eq!(chunk_glyphs(&text, 7, 0), Some(vec![glyphs("abcdefg"), glyphs("h")]));
    assert_eq!(chunk_glyphs(&text, 3, 0), Some(vec![glyphs("abc"), glyphs("def"), glyphs("gh")]));
    assert_eq!(chunk_glyphs(&text, 4, 0), Some(vec![glyphs("abcd"), glyphs("efgh")]));
    assert_eq!(chunk_glyphs(&text, 0, 0), None);
    assert_eq!(chunk_glyphs(&text, -1, 0), None);
    assert_eq!(chunk_glyphs(&glyphs(""), -1, 0), Some(vec![glyphs("")]));
    // with padding, three glyphs take five cells: they fill a line of four and leave an empty one
    assert_eq!(chunk_glyphs(&glyphs("abc"), 4, 500), Some(vec![glyphs("abc"), glyphs("")]));
    assert_eq!(chunk_glyphs(&glyphs("abc"), 5, 500), Some(vec![glyphs("abc")]));
}

#[test]
fn break_lines_picks_the_mode() {
    let text = chars_of("ab cd");
    assert_eq!(break_lines(&text, true, 3, 0), Some(vec![glyphs("ab "), glyphs("cd")]));
    assert_eq!(break_lines(&text, false, 3, 0), Some(vec![glyphs("ab "), glyphs("cd")]));
    assert_eq!(break_lines(&text, false, 4, 0), Some(vec![glyphs("ab c"), glyphs("d")]));
    assert_eq!(break_lines(&text, true, 1, 0), None);
}

#[test]
fn palette_lookup_takes_last_entry() {
    let mut palette = Palette::new();
    let red = Rgba::from_u8(255, 0, 0, 255);
    let dark = Rgba::from_u8(128, 0, 0, 255);
    assert_eq!(palette.lookup("red"), None);
    palette.register("red", red);
    palette.register("blue", Rgba::from_u8(0, 0, 255, 255));
    assert_eq!(palette.lookup("red"), Some(red));
    palette.register("red", dark);
    assert_eq!(palette.lookup("red"), Some(dark));
    assert_eq!(palette.lookup("re"), None);
    assert_eq!(palette.lookup("redd"), None);
    let text = chars_of("xxredxx");
    assert_eq!(palette.lookup_range(&text, 2, 5), Some(dark));
    assert_eq!(palette.lookup_range(&text, 2, 2), None);
}

#[test]
fn markup_colors_spans() {
    let mut palette = Palette::new();
    let red = Rgba::from_u8(255, 0, 0, 255);
    let blue = Rgba::from_u8(0, 0, 255, 255);
    let white = Rgba::white();
    palette.register("red", red);
    palette.register("blue", blue);

    let styled = parse_markup(&chars_of("#[red]ab#[blue]c#[]d#[]e"), &palette);
    assert_eq!(styled.chars, chars_of("abcde"));
    assert_eq!(styled.colors, vec![red, red, blue, red, white]);

    // what stands before the first marker has no closing bracket and shows nothing
    let styled = parse_markup(&chars_of("xy#[red]ab"), &palette);
    assert_eq!(styled.chars, chars_of("ab"));
    assert_eq!(styled.colors, vec![red, red]);

    // a text without markers and brackets shows nothing
    let styled = parse_markup(&chars_of("plain"), &palette);
    assert_eq!(styled.chars, Vec::<char>::new());
    assert_eq!(styled.colors, Vec::<Rgba>::new());

    // a name that the palette lacks keeps the color in force
    let styled = parse_markup(&chars_of("#[red]a#[nope]b#[]c"), &palette);
    assert_eq!(styled.chars, chars_of("abc"));
    assert_eq!(styled.colors, vec![red, red, red]);

    // a piece reads up to its first closing bracket
    let styled = parse_markup(&chars_of("a]b]c#["), &palette);
    assert_eq!(styled.chars, chars_of("b]c"));
    assert_eq!(styled.colors, vec![white, white, white]);

    // leaving more colors than were entered is harmless
    let styled = parse_markup(&chars_of("#[]a#["), &palette);
    assert_eq!(styled.chars, chars_of("a"));
    assert_eq!(styled.colors, vec![white]);
}
