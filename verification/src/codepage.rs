//! The 437 code page: which glyph of a console font shows a character.
//!
//! A console font holds 256 glyphs in the order of this code page. Glyphs 32
//! to 126 are the printable ASCII characters at their own codes; the others
//! are symbols, accented letters and the line-drawing set.

use vstd::prelude::*;

verus! {

/// The index of a glyph in a console font.
pub type FontCharType = u16;

/// The glyph that shows a space.
pub const GLYPH_SPACE: FontCharType = 32;

/// The glyph of the code page that shows `c`; 0 for a character that the
/// code page lacks.
pub open spec fn cp437_glyph(c: char) -> FontCharType {
    if ' ' <= c && c <= '~' {
        c as u16
    } else {
        match c {
            '\u{263A}' => 1,
            '\u{263B}' => 2,
            '\u{2665}' => 3,
            '\u{2666}' => 4,
            '\u{2663}' => 5,
            '\u{2660}' => 6,
            '\u{2022}' => 7,
            '\u{25D8}' => 8,
            '\u{25CB}' => 9,
            '\u{25D9}' => 10,
            '\u{2642}' => 11,
            '\u{2640}' => 12,
            '\u{266A}' => 13,
            '\u{266B}' => 14,
            '\u{263C}' => 15,
            '\u{25BA}' => 16,
            '\u{25C4}' => 17,
            '\u{2195}' => 18,
            '\u{203C}' => 19,
            '\u{00B6}' => 20,
            '\u{00A7}' => 21,
            '\u{25AC}' => 22,
            '\u{21A8}' => 23,
            '\u{2191}' => 24,
            '\u{2193}' => 25,
            '\u{2192}' => 26,
            '\u{2190}' => 27,
            '\u{221F}' => 28,
            '\u{2194}' => 29,
            '\u{25B2}' => 30,
            '\u{25BC}' => 31,
            '\u{2302}' => 127,
            '\u{00C7}' => 128,
            '\u{00FC}' => 129,
            '\u{00E9}' => 130,
            '\u{00E2}' => 131,
            '\u{00E4}' => 132,
            '\u{00E0}' => 133,
            '\u{00E5}' => 134,
            '\u{00E7}' => 135,
            '\u{00EA}' => 136,
            '\u{00EB}' => 137,
            '\u{00E8}' => 138,
            '\u{00EF}' => 139,
            '\u{00EE}' => 140,
            '\u{00EC}' => 141,
            '\u{00C4}' => 142,
            '\u{00C5}' => 143,
            '\u{00C9}' => 144,
            '\u{00E6}' => 145,
            '\u{00C6}' => 146,
            '\u{00F4}' => 147,
            '\u{00F6}' => 148,
            '\u{00F2}' => 149,
            '\u{00FB}' => 150,
            '\u{00F9}' => 151,
            '\u{00FF}' => 152,
            '\u{00D6}' => 153,
            '\u{00DC}' => 154,
            '\u{00A2}' => 155,
            '\u{00A3}' => 156,
            '\u{00A5}' => 157,
            '\u{20A7}' => 158,
            '\u{0192}' => 159,
            '\u{00E1}' => 160,
            '\u{00ED}' => 161,
            '\u{00F3}' => 162,
            '\u{00FA}' => 163,
            '\u{00F1}' => 164,
            '\u{00D1}' => 165,
            '\u{00AA}' => 166,
            '\u{00BA}' => 167,
            '\u{00BF}' => 168,
            '\u{2310}' => 169,
            '\u{00AC}' => 170,
            '\u{00BD}' => 171,
            '\u{00BC}' => 172,
            '\u{00A1}' => 173,
            '\u{00AB}' => 174,
            '\u{00BB}' => 175,
            '\u{2591}' => 176,
            '\u{2592}' => 177,
            '\u{2593}' => 178,
            '\u{2502}' => 179,
            '\u{2524}' => 180,
            '\u{2561}' => 181,
            '\u{2562}' => 182,
            '\u{2556}' => 183,
            '\u{2555}' => 184,
            '\u{2563}' => 185,
            '\u{2551}' => 186,
            '\u{2557}' => 187,
            '\u{255D}' => 188,
            '\u{255C}' => 189,
            '\u{255B}' => 190,
            '\u{2510}' => 191,
            '\u{2514}' => 192,
            '\u{2534}' => 193,
            '\u{252C}' => 194,
            '\u{251C}' => 195,
            '\u{2500}' => 196,
            '\u{253C}' => 197,
            '\u{255E}' => 198,
            '\u{255F}' => 199,
            '\u{255A}' => 200,
            '\u{2554}' => 201,
            '\u{2569}' => 202,
            '\u{2566}' => 203,
            '\u{2560}' => 204,
            '\u{2550}' => 205,
            '\u{256C}' => 206,
            '\u{2567}' => 207,
            '\u{2568}' => 208,
            '\u{2564}' => 209,
            '\u{2565}' => 210,
            '\u{2559}' => 211,
            '\u{2558}' => 212,
            '\u{2552}' => 213,
            '\u{2553}' => 214,
            '\u{256B}' => 215,
            '\u{256A}' => 216,
            '\u{2518}' => 217,
            '\u{250C}' => 218,
            '\u{2588}' => 219,
            '\u{2584}' => 220,
            '\u{258C}' => 221,
            '\u{2590}' => 222,
            '\u{2580}' => 223,
            '\u{03B1}' => 224,
            '\u{00DF}' => 225,
            '\u{0393}' => 226,
            '\u{03C0}' => 227,
            '\u{03A3}' => 228,
            '\u{03C3}' => 229,
            '\u{00B5}' => 230,
            '\u{03C4}' => 231,
            '\u{03A6}' => 232,
            '\u{0398}' => 233,
            '\u{03A9}' => 234,
            '\u{03B4}' => 235,
            '\u{221E}' => 236,
            '\u{03C6}' => 237,
            '\u{03B5}' => 238,
            '\u{2229}' => 239,
            '\u{2261}' => 240,
            '\u{00B1}' => 241,
            '\u{2265}' => 242,
            '\u{2264}' => 243,
            '\u{2320}' => 244,
            '\u{2321}' => 245,
            '\u{00F7}' => 246,
            '\u{2248}' => 247,
            '\u{00B0}' => 248,
            '\u{2219}' => 249,
            '\u{00B7}' => 250,
            '\u{221A}' => 251,
            '\u{207F}' => 252,
            '\u{00B2}' => 253,
            '\u{25A0}' => 254,
            '\u{00A0}' => 255,
            _ => 0,
        }
    }
}

/// The glyphs that show the characters of a text, one for one.
pub open spec fn cp437_glyphs(text: Seq<char>) -> Seq<FontCharType> {
    text.map_values(|c: char| cp437_glyph(c))
}

/// Finds the glyph that shows `c`. A character outside the code page gives
/// glyph 0.
pub fn to_cp437(c: char) -> (glyph: FontCharType)
    ensures
        glyph == cp437_glyph(c),
        glyph < 256,
{
    if ' ' <= c && c <= '~' {
        c as u16
    } else {
        match c {
            '\u{263A}' => 1,
            '\u{263B}' => 2,
            '\u{2665}' => 3,
            '\u{2666}' => 4,
            '\u{2663}' => 5,
            '\u{2660}' => 6,
            '\u{2022}' => 7,
            '\u{25D8}' => 8,
            '\u{25CB}' => 9,
            '\u{25D9}' => 10,
            '\u{2642}' => 11,
            '\u{2640}' => 12,
            '\u{266A}' => 13,
            '\u{266B}' => 14,
            '\u{263C}' => 15,
            '\u{25BA}' => 16,
            '\u{25C4}' => 17,
            '\u{2195}' => 18,
            '\u{203C}' => 19,
            '\u{00B6}' => 20,
            '\u{00A7}' => 21,
            '\u{25AC}' => 22,
            '\u{21A8}' => 23,
            '\u{2191}' => 24,
            '\u{2193}' => 25,
            '\u{2192}' => 26,
            '\u{2190}' => 27,
            '\u{221F}' => 28,
            '\u{2194}' => 29,
            '\u{25B2}' => 30,
            '\u{25BC}' => 31,
            '\u{2302}' => 127,
            '\u{00C7}' => 128,
            '\u{00FC}' => 129,
            '\u{00E9}' => 130,
            '\u{00E2}' => 131,
            '\u{00E4}' => 132,
            '\u{00E0}' => 133,
            '\u{00E5}' => 134,
            '\u{00E7}' => 135,
            '\u{00EA}' => 136,
            '\u{00EB}' => 137,
            '\u{00E8}' => 138,
            '\u{00EF}' => 139,
            '\u{00EE}' => 140,
            '\u{00EC}' => 141,
            '\u{00C4}' => 142,
            '\u{00C5}' => 143,
            '\u{00C9}' => 144,
            '\u{00E6}' => 145,
            '\u{00C6}' => 146,
            '\u{00F4}' => 147,
            '\u{00F6}' => 148,
            '\u{00F2}' => 149,
            '\u{00FB}' => 150,
            '\u{00F9}' => 151,
            '\u{00FF}' => 152,
            '\u{00D6}' => 153,
            '\u{00DC}' => 154,
            '\u{00A2}' => 155,
            '\u{00A3}' => 156,
            '\u{00A5}' => 157,
            '\u{20A7}' => 158,
            '\u{0192}' => 159,
            '\u{00E1}' => 160,
            '\u{00ED}' => 161,
            '\u{00F3}' => 162,
            '\u{00FA}' => 163,
            '\u{00F1}' => 164,
            '\u{00D1}' => 165,
            '\u{00AA}' => 166,
            '\u{00BA}' => 167,
            '\u{00BF}' => 168,
            '\u{2310}' => 169,
            '\u{00AC}' => 170,
            '\u{00BD}' => 171,
            '\u{00BC}' => 172,
            '\u{00A1}' => 173,
            '\u{00AB}' => 174,
            '\u{00BB}' => 175,
            '\u{2591}' => 176,
            '\u{2592}' => 177,
            '\u{2593}' => 178,
            '\u{2502}' => 179,
            '\u{2524}' => 180,
            '\u{2561}' => 181,
            '\u{2562}' => 182,
            '\u{2556}' => 183,
            '\u{2555}' => 184,
            '\u{2563}' => 185,
            '\u{2551}' => 186,
            '\u{2557}' => 187,
            '\u{255D}' => 188,
            '\u{255C}' => 189,
            '\u{255B}' => 190,
            '\u{2510}' => 191,
            '\u{2514}' => 192,
            '\u{2534}' => 193,
            '\u{252C}' => 194,
            '\u{251C}' => 195,
            '\u{2500}' => 196,
            '\u{253C}' => 197,
            '\u{255E}' => 198,
            '\u{255F}' => 199,
            '\u{255A}' => 200,
            '\u{2554}' => 201,
            '\u{2569}' => 202,
            '\u{2566}' => 203,
            '\u{2560}' => 204,
            '\u{2550}' => 205,
            '\u{256C}' => 206,
            '\u{2567}' => 207,
            '\u{2568}' => 208,
            '\u{2564}' => 209,
            '\u{2565}' => 210,
            '\u{2559}' => 211,
            '\u{2558}' => 212,
            '\u{2552}' => 213,
            '\u{2553}' => 214,
            '\u{256B}' => 215,
            '\u{256A}' => 216,
            '\u{2518}' => 217,
            '\u{250C}' => 218,
            '\u{2588}' => 219,
            '\u{2584}' => 220,
            '\u{258C}' => 221,
            '\u{2590}' => 222,
            '\u{2580}' => 223,
            '\u{03B1}' => 224,
            '\u{00DF}' => 225,
            '\u{0393}' => 226,
            '\u{03C0}' => 227,
            '\u{03A3}' => 228,
            '\u{03C3}' => 229,
            '\u{00B5}' => 230,
            '\u{03C4}' => 231,
            '\u{03A6}' => 232,
            '\u{0398}' => 233,
            '\u{03A9}' => 234,
            '\u{03B4}' => 235,
            '\u{221E}' => 236,
            '\u{03C6}' => 237,
            '\u{03B5}' => 238,
            '\u{2229}' => 239,
            '\u{2261}' => 240,
            '\u{00B1}' => 241,
            '\u{2265}' => 242,
            '\u{2264}' => 243,
            '\u{2320}' => 244,
            '\u{2321}' => 245,
            '\u{00F7}' => 246,
            '\u{2248}' => 247,
            '\u{00B0}' => 248,
            '\u{2219}' => 249,
            '\u{00B7}' => 250,
            '\u{221A}' => 251,
            '\u{207F}' => 252,
            '\u{00B2}' => 253,
            '\u{25A0}' => 254,
            '\u{00A0}' => 255,
            _ => 0,
        }
    }
}

/// Converts a text to the glyphs that show it, one for each character.
pub fn string_to_cp437(input: &str) -> (glyphs: Vec<FontCharType>)
    ensures
        glyphs@ == cp437_glyphs(input@),
{
    let mut glyphs: Vec<FontCharType> = Vec::new();
    let n = input.unicode_len();
    let mut i: usize = 0;
    while i < n
        invariant
            n == input@.len(),
            i <= n,
            glyphs@.len() == i,
            forall|k: int| 0 <= k < i ==> glyphs@[k] == cp437_glyph(#[trigger] input@[k]),
        decreases n - i,
    {
        glyphs.push(to_cp437(input.get_char(i)));
        i += 1;
    }
    assert(glyphs@ =~= cp437_glyphs(input@));
    glyphs
}

} // verus!
