use bracket_terminal::color::Rgba;
use bracket_terminal::console::{GridConsole, Quad};
use bracket_terminal::fancy::{FancyConsole, FancyTile};
use bracket_terminal::geometry::PointF;
use bracket_terminal::gui_helpers::{
    draw_bar_horizontal, draw_bar_vertical, draw_box, draw_box_double, draw_box_fancy,
    draw_hollow_box, draw_hollow_box_double,
};
use bracket_terminal::sprite::{RenderSprite, SpriteConsole};
use bracket_terminal::textblock::Tile;

fn red() -> Rgba {
    Rgba::from_u8(255, 0, 0, 255)
}

fn blue() -> Rgba {
    Rgba::from_u8(0, 0, 255, 200)
}

fn glyph_rows(console: &GridConsole) -> Vec<Vec<u16>> {
    let (w, h) = console.get_char_size();
    (0..h as i32)
        .map(|y| (0..w as i32).map(|x| console.tile(x, y).unwrap().glyph).collect())
        .collect()
}

#[test]
fn grid_console_sets_cells() {
    let mut c = GridConsole::new(3, 2);
    assert_eq!(c.get_char_size(), (3, 2));
    assert_eq!(c.get_clear_glyph(), 32);
    assert!(c.is_dirty());
    let cleared = Tile { glyph: 32, fg: Rgba::white(), bg: Rgba::black() };
    assert_eq!(c.tile(2, 1), Some(cleared));
    assert_eq!(c.tile(3, 1), None);
    assert_eq!(c.tile(0, 2), None);
    assert_eq!(c.tile(-1, 0), None);
    c.set(1, 1, red(), blue(), 65);
    assert_eq!(c.tile(1, 1), Some(Tile { glyph: 65, fg: red(), bg: blue() }));
    assert_eq!(c.tile(0, 1), Some(cleared));
    assert_eq!(c.tile(1, 0), Some(cleared));
    // outside the console nothing happens
    c.set(3, 0, red(), blue(), 66);
    c.set(0, -1, red(), blue(), 66);
    c.set(i32::MAX, i32::MAX, red(), blue(), 66);
    assert_eq!(glyph_rows(&c), vec![vec![32, 32, 32], vec![32, 65, 32]]);
    c.fill_region(-5, 0, 2, 1, red(), blue(), 67);
    assert_eq!(glyph_rows(&c), vec![vec![67, 67, 32], vec![32, 65, 32]]);
    c.cls();
    assert_eq!(glyph_rows(&c), vec![vec![32, 32, 32], vec![32, 32, 32]]);
}

#[test]
fn grid_console_rebuild_is_whole() {
    let mut c = GridConsole::new(3, 2);
    assert_eq!(c.geometry().len(), 0);
    c.set(1, 1, red(), blue(), 65);
    c.rebuild_geometry((8, 16));
    assert!(!c.is_dirty());
    assert_eq!(c.geometry().len(), 6);
    assert_eq!(
        c.geometry()[4],
        Quad { x: 8, y: 16, width: 8, height: 16, atlas_column: 1, atlas_row: 4, fg: red(), bg: blue() }
    );
    assert_eq!(
        c.geometry()[2],
        Quad { x: 16, y: 0, width: 8, height: 16, atlas_column: 0, atlas_row: 2, fg: Rgba::white(), bg: Rgba::black() }
    );
    // rebuilding a clean console changes nothing, not even for another tile size
    let before = c.geometry().clone();
    c.rebuild_geometry((9, 9));
    assert_eq!(*c.geometry(), before);

    // a change marks the console dirty; what is drawn stays the last whole rebuild
    c.set(0, 0, red(), blue(), 66);
    assert!(c.is_dirty());
    assert_eq!(*c.geometry(), before);
    c.set_char_size(4, 4);
    assert!(c.is_dirty());
    assert_eq!(c.get_char_size(), (4, 4));
    assert_eq!(c.tile(0, 0).unwrap().glyph, 32);
    assert_eq!(c.geometry().len(), 6);
    c.rebuild_geometry((9, 9));
    assert_eq!(c.geometry().len(), 16);
    assert_eq!(c.geometry()[5].x, 9);
    assert_eq!(c.geometry()[5].y, 9);
    c.set_char_size(0, 7);
    c.rebuild_geometry((9, 9));
    assert_eq!(c.geometry().len(), 0);
}

#[test]
fn box_single_lines() {
    let mut c = GridConsole::new(6, 5);
    c.fill_region(0, 0, 6, 5, red(), red(), 46);
    draw_box(&mut c, 1, 1, 3, 2, red(), blue());
    assert_eq!(
        glyph_rows(&c),
        vec![
            vec![46, 46, 46, 46, 46, 46],
            vec![46, 218, 196, 196, 191, 46],
            vec![46, 179, 32, 32, 179, 46],
            vec![46, 192, 196, 196, 217, 46],
            vec![46, 46, 46, 46, 46, 46],
        ]
    );
    assert_eq!(c.tile(2, 2), Some(Tile { glyph: 32, fg: red(), bg: blue() }));
    assert_eq!(c.tile(1, 1), Some(Tile { glyph: 218, fg: red(), bg: blue() }));
    assert_eq!(c.tile(0, 0), Some(Tile { glyph: 46, fg: red(), bg: red() }));
}

#[test]
fn box_hollow_keeps_inside() {
    let mut c = GridConsole::new(4, 4);
    c.fill_region(0, 0, 4, 4, red(), red(), 46);
    draw_hollow_box(&mut c, 0, 0, 3, 3, red(), blue());
    assert_eq!(
        glyph_rows(&c),
        vec![
            vec![218, 196, 196, 191],
            vec![179, 46, 46, 179],
            vec![179, 46, 46, 179],
            vec![192, 196, 196, 217],
        ]
    );
}

#[test]
fn box_double_lines() {
    let mut c = GridConsole::new(4, 3);
    c.fill_region(0, 0, 4, 3, red(), red(), 46);
    draw_box_double(&mut c, 0, 0, 3, 2, red(), blue());
    assert_eq!(
        glyph_rows(&c),
        vec![vec![201, 205, 205, 187], vec![186, 32, 32, 186], vec![200, 205, 205, 188]]
    );
    // the inside is blanked white on black, with the transparency of the foreground
    draw_box_double(&mut c, 0, 0, 3, 2, blue(), red());
    assert_eq!(
        c.tile(1, 1),
        Some(Tile { glyph: 32, fg: Rgba::from_u8(255, 255, 255, 200), bg: Rgba::from_u8(0, 0, 0, 200) })
    );
    let mut h = GridConsole::new(4, 3);
    h.fill_region(0, 0, 4, 3, red(), red(), 46);
    draw_hollow_box_double(&mut h, 0, 0, 3, 2, red(), blue());
    assert_eq!(
        glyph_rows(&h),
        vec![vec![201, 205, 205, 187], vec![186, 46, 46, 186], vec![200, 205, 205, 188]]
    );
}

#[test]
fn box_partly_outside() {
    let mut c = GridConsole::new(3, 3);
    c.fill_region(0, 0, 3, 3, red(), red(), 46);
    draw_box(&mut c, 1, 1, 4, 4, red(), blue());
    assert_eq!(
        glyph_rows(&c),
        vec![vec![46, 46, 46], vec![46, 218, 196], vec![46, 179, 32]]
    );
    // a box without extent: the corners fall on one cell and the last one stays
    let mut d = GridConsole::new(2, 2);
    draw_hollow_box(&mut d, 0, 0, 0, 0, red(), blue());
    assert_eq!(glyph_rows(&d), vec![vec![217, 32], vec![32, 32]]);
    draw_hollow_box(&mut d, i32::MAX, i32::MAX, i32::MAX, i32::MAX, red(), blue());
    assert_eq!(glyph_rows(&d), vec![vec![217, 32], vec![32, 32]]);
}

#[test]
fn bars_fill_by_share() {
    let mut c = GridConsole::new(10, 10);
    draw_bar_horizontal(&mut c, 0, 0, 10, 5, 10, red(), blue());
    assert_eq!(glyph_rows(&c)[0], vec![178, 178, 178, 178, 178, 178, 176, 176, 176, 176]);
    draw_bar_horizontal(&mut c, 0, 1, 10, 0, 10, red(), blue());
    assert_eq!(glyph_rows(&c)[1], vec![178, 176, 176, 176, 176, 176, 176, 176, 176, 176]);
    draw_bar_horizontal(&mut c, 0, 2, 10, 10, 10, red(), blue());
    assert_eq!(glyph_rows(&c)[2], vec![178; 10]);
    draw_bar_horizontal(&mut c, 0, 3, 10, 1, 3, red(), blue());
    assert_eq!(glyph_rows(&c)[3], vec![178, 178, 178, 178, 176, 176, 176, 176, 176, 176]);
    draw_bar_horizontal(&mut c, 0, 4, 10, -5, 10, red(), blue());
    assert_eq!(glyph_rows(&c)[4], vec![176; 10]);
    // nothing can be reached of nothing
    draw_bar_horizontal(&mut c, 0, 5, 10, 5, 0, red(), blue());
    assert_eq!(glyph_rows(&c)[5], vec![178, 176, 176, 176, 176, 176, 176, 176, 176, 176]);
    draw_bar_horizontal(&mut c, 2, 6, 3, 3, 3, red(), blue());
    assert_eq!(glyph_rows(&c)[6], vec![32, 32, 178, 178, 178, 32, 32, 32, 32, 32]);

    let mut v = GridConsole::new(2, 10);
    draw_bar_vertical(&mut v, 1, 0, 10, 3, 10, red(), blue());
    let column: Vec<u16> = (0..10).map(|y| v.tile(1, y).unwrap().glyph).collect();
    assert_eq!(column, vec![176, 176, 176, 176, 176, 176, 176, 178, 178, 178]);
    draw_bar_vertical(&mut v, 0, 0, 10, 0, 10, red(), blue());
    let column: Vec<u16> = (0..10).map(|y| v.tile(0, y).unwrap().glyph).collect();
    assert_eq!(column, vec![176; 10]);
    draw_bar_vertical(&mut v, 0, 0, 10, 20, 10, red(), blue());
    let column: Vec<u16> = (0..10).map(|y| v.tile(0, y).unwrap().glyph).collect();
    assert_eq!(column, vec![178; 10]);
}

fn simple(x: i64, y: i64, glyph: u16) -> FancyTile {
    FancyTile {
        position: PointF::new(x, y),
        z_order: 1,
        rotation: 0,
        scale: PointF::new(1000, 1000),
        fg: red(),
        bg: blue(),
        glyph,
    }
}

#[test]
fn fancy_box_places_glyphs_in_order() {
    let mut c = FancyConsole::new(10, 10);
    draw_box_fancy(&mut c, 500, 250, 2, 2, red(), blue());
    assert_eq!(c.len(), 12);
    c.rebuild_geometry();
    let expected = vec![
        simple(500, 250, 32),
        simple(1500, 250, 32),
        simple(500, 1250, 32),
        simple(1500, 1250, 32),
        simple(500, 250, 218),
        simple(2500, 250, 191),
        simple(500, 2250, 192),
        simple(2500, 2250, 217),
        simple(1500, 250, 196),
        simple(1500, 2250, 196),
        simple(500, 1250, 179),
        simple(2500, 1250, 179),
    ];
    assert_eq!(*c.geometry(), expected);
    let mut none = FancyConsole::new(10, 10);
    draw_box_fancy(&mut none, 0, 0, 0, -3, red(), blue());
    assert_eq!(none.len(), 4);
}

#[test]
fn fancy_console_orders_layers() {
    let mut c = FancyConsole::new(4, 4);
    assert_eq!(c.get_char_size(), (4, 4));
    assert_eq!(c.get_clear_glyph(), 32);
    assert!(c.is_dirty());
    let mut a = simple(0, 0, 1);
    a.z_order = 5;
    let mut b = simple(0, 0, 2);
    b.z_order = -1;
    let mut d = simple(0, 0, 3);
    d.z_order = 5;
    let mut e = simple(0, 0, 4);
    e.z_order = 2;
    c.set_fancy(a);
    c.set_fancy(b);
    c.set_fancy(d);
    c.set_fancy(e);
    c.set_fancy_simple(7, 8, red(), blue(), 9);
    assert_eq!(c.len(), 5);
    assert_eq!(c.geometry().len(), 0);
    c.rebuild_geometry();
    assert!(!c.is_dirty());
    // lowest layer first; glyphs of one layer in the order they were placed
    assert_eq!(*c.geometry(), vec![b, simple(7, 8, 9), e, a, d]);
    c.set_char_size(2, 2);
    assert!(c.is_dirty());
    assert_eq!(c.len(), 0);
    assert_eq!(c.geometry().len(), 5);
    c.rebuild_geometry();
    assert_eq!(c.geometry().len(), 0);
    c.set_fancy(a);
    c.cls();
    assert_eq!(c.len(), 0);
}

#[test]
fn sprite_console_keeps_sprites() {
    let mut c = SpriteConsole::new(10, 10, 2);
    assert_eq!(c.get_char_size(), (10, 10));
    assert_eq!(c.sprite_sheet(), 2);
    let s = RenderSprite { x: 16, y: 16, width: 8, height: 8, z_order: 0, tint: red(), index: 3 };
    let t = RenderSprite { x: -4, y: 0, width: 8, height: 2, z_order: 0, tint: blue(), index: 1 };
    c.render_sprite(s);
    c.render_sprite(t);
    assert_eq!(c.len(), 2);
    assert!(c.is_dirty());
    assert!(c.paints(16, 16));
    assert!(c.paints(23, 23));
    assert!(!c.paints(24, 16));
    assert!(!c.paints(15, 16));
    assert!(c.paints(-4, 1));
    assert!(c.paints(3, 0));
    assert!(!c.paints(4, 0));
    assert!(!c.paints(0, 2));
    c.rebuild_geometry();
    assert!(!c.is_dirty());
    assert_eq!(*c.geometry(), vec![s, t]);
    c.set_char_size(5, 5);
    assert!(c.is_dirty());
    assert_eq!(c.get_char_size(), (5, 5));
    assert_eq!(c.len(), 0);
    assert_eq!(c.geometry().len(), 2);
    c.render_sprite(s);
    c.cls();
    assert_eq!(c.len(), 0);
    c.rebuild_geometry();
    assert_eq!(c.geometry().len(), 0);
}
