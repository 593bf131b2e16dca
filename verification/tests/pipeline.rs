use bracket_terminal::color::Rgba;
use bracket_terminal::compositor::{ConfigError, FrameCompositor, FrameState, RenderCommand};
use bracket_terminal::console::GridConsole;
use bracket_terminal::fancy::{FancyConsole, FancyTile};
use bracket_terminal::geometry::PointF;
use bracket_terminal::frame::{begin_frame, end_frame, tock, tock_at, GameState};
use bracket_terminal::mailbox::{clear_input_state, scale_coordinate, EventMailbox};
use bracket_terminal::mainloop::{request_animation_frame, run, FrameLoop, LoopAction, LoopEvent, LoopPhase};
use bracket_terminal::platform::{init_raw, BTerm, InitHints, InitPlan, PlatformGL};
use bracket_terminal::registry::{largest_active_font, ConsoleLayer, Font, LayerKind, Registry};
use bracket_terminal::resize::{on_resize, BEvent, WindowSize};
use bracket_terminal::scaler::ScreenScaler;
use bracket_terminal::sprite::{RenderSprite, SpriteConsole};
use bracket_terminal::timing::FrameClock;

fn font(w: u32, h: u32) -> Font {
    Font { tile_size: (w, h), texture: Some(1) }
}

fn terminal(width: u32, height: u32, hints: InitHints) -> (BTerm, PlatformGL) {
    let (bterm, backend, _) = init_raw(width, height, hints, 1000);
    (bterm, backend)
}

/// A grid console of 10 by 10 cells of 8 by 8 pixels, and above it a sprite console.
fn grid_under_sprites() -> Registry {
    let mut registry = Registry::new();
    let small = registry.register_font(font(8, 8));
    let sheet = registry.register_font(font(1, 1));
    assert_eq!((small, sheet), (0, 1));
    let a = registry.register_console(ConsoleLayer::Grid(GridConsole::new(10, 10)), small);
    let mut sprites = SpriteConsole::new(10, 10, 0);
    sprites.render_sprite(RenderSprite {
        x: 16,
        y: 16,
        width: 8,
        height: 8,
        z_order: 0,
        tint: Rgba::white(),
        index: 0,
    });
    let b = registry.register_console(ConsoleLayer::Sprite(sprites), sheet);
    assert_eq!((a, b), (0, 1));
    registry
}

#[test]
fn largest_font_of_active_consoles() {
    let mut registry = Registry::new();
    assert_eq!(largest_active_font(&registry), (0, 0));
    registry.register_font(font(8, 16));
    registry.register_font(font(16, 8));
    registry.register_font(font(32, 32));
    // a font that no console uses does not count
    assert_eq!(largest_active_font(&registry), (0, 0));
    registry.register_console(ConsoleLayer::Grid(GridConsole::new(2, 2)), 0);
    assert_eq!(largest_active_font(&registry), (8, 16));
    registry.register_console(ConsoleLayer::Fancy(FancyConsole::new(2, 2)), 1);
    // the largest width and the largest height, each from its own font
    assert_eq!(largest_active_font(&registry), (16, 16));
    // a console whose font is missing does not count
    registry.register_console(ConsoleLayer::Grid(GridConsole::new(2, 2)), 7);
    assert_eq!(largest_active_font(&registry), (16, 16));
}

#[test]
fn later_console_is_drawn_on_top() {
    let mut registry = grid_under_sprites();
    // the sprite covers the cell at column 2, row 2 of the grid
    assert_eq!(registry.top_console_at(18, 18), Some(1));
    assert_eq!(registry.top_console_at(16, 23), Some(1));
    // beside the sprite the grid shows
    assert_eq!(registry.top_console_at(15, 18), Some(0));
    assert_eq!(registry.top_console_at(0, 0), Some(0));
    assert_eq!(registry.top_console_at(79, 79), Some(0));
    // beyond the grid nothing is painted
    assert_eq!(registry.top_console_at(80, 0), None);
    assert_eq!(registry.top_console_at(-1, 0), None);

    // and the draw commands come in the order of the registry
    let (bterm, mut backend) = terminal(80, 80, InitHints::new());
    let mut compositor = FrameCompositor::new();
    compositor.step(&mut backend, &mut registry, &bterm).unwrap();
    let draws = compositor.step(&mut backend, &mut registry, &bterm).unwrap();
    assert_eq!(
        draws,
        vec![
            RenderCommand::DrawConsole { index: 0, font_index: 0, upload: true },
            RenderCommand::DrawConsole { index: 1, font_index: 1, upload: true },
        ]
    );
}

#[test]
fn free_glyphs_are_drawn_on_top() {
    let mut registry = grid_under_sprites();
    let mut fancy = FancyConsole::new(10, 10);
    // a glyph at column 4.5, row 1 of a font of 8 by 8 pixels: pixels 36 to 43, 8 to 15
    fancy.set_fancy_simple(4500, 1000, Rgba::white(), Rgba::black(), 65);
    // a glyph of twice the size about the center of column 0, row 5: pixels -4 to 11, 36 to 51
    fancy.set_fancy(FancyTile {
        position: PointF::new(0, 5000),
        z_order: 0,
        rotation: 0,
        scale: PointF::new(2000, 2000),
        fg: Rgba::white(),
        bg: Rgba::black(),
        glyph: 66,
    });
    // a turned glyph is not looked at
    fancy.set_fancy(FancyTile {
        position: PointF::new(8000, 8000),
        z_order: 0,
        rotation: 785,
        scale: PointF::new(1000, 1000),
        fg: Rgba::white(),
        bg: Rgba::black(),
        glyph: 67,
    });
    assert!(fancy.paints((8, 8), 36, 8));
    assert!(fancy.paints((8, 8), 43, 15));
    assert!(!fancy.paints((8, 8), 35, 8));
    assert!(!fancy.paints((8, 8), 44, 8));
    assert!(!fancy.paints((8, 8), 36, 16));
    assert!(fancy.paints((8, 8), -4, 36));
    assert!(fancy.paints((8, 8), 11, 51));
    assert!(!fancy.paints((8, 8), 12, 40));
    assert!(!fancy.paints((8, 8), 68, 68));
    registry.register_console(ConsoleLayer::Fancy(fancy), 0);
    assert_eq!(registry.top_console_at(40, 10), Some(2));
    assert_eq!(registry.top_console_at(30, 10), Some(0));
    assert_eq!(registry.top_console_at(18, 18), Some(1));
    assert_eq!(registry.top_console_at(68, 68), Some(0));
    assert_eq!(registry.top_console_at(-2, 40), Some(2));
}

#[test]
fn registry_rebuilds_dirty_consoles() {
    let mut registry = grid_under_sprites();
    registry.register_console(ConsoleLayer::Grid(GridConsole::new(3, 3)), 9);
    assert!(registry.consoles[0].console.is_dirty());
    assert_eq!(registry.consoles[0].console.kind(), LayerKind::Grid);
    assert_eq!(registry.consoles[1].console.kind(), LayerKind::Sprite);
    registry.rebuild_consoles();
    assert!(!registry.consoles[0].console.is_dirty());
    assert!(!registry.consoles[1].console.is_dirty());
    // without its font a console cannot be rebuilt
    assert!(registry.consoles[2].console.is_dirty());
    match &registry.consoles[0].console {
        ConsoleLayer::Grid(c) => {
            assert_eq!(c.geometry().len(), 100);
            assert_eq!((c.geometry()[11].x, c.geometry()[11].y), (8, 8));
        }
        _ => panic!("a grid console was registered first"),
    }
    match &registry.consoles[1].console {
        ConsoleLayer::Sprite(c) => assert_eq!(c.geometry().len(), 1),
        _ => panic!("a sprite console was registered second"),
    }
}

#[test]
fn frame_runs_through_its_states() {
    let mut registry = grid_under_sprites();
    let (bterm, mut backend) = terminal(640, 480, InitHints::new());
    backend.gl_callback = true;
    backend.request_screenshot = Some("shot.png".to_string());
    let mut compositor = FrameCompositor::new();
    assert_eq!(compositor.state, FrameState::Idle);

    let start = compositor.step(&mut backend, &mut registry, &bterm).unwrap();
    assert_eq!(
        start,
        vec![
            RenderCommand::CreateBacking { index: 0, kind: LayerKind::Grid },
            RenderCommand::CreateBacking { index: 1, kind: LayerKind::Sprite },
            RenderCommand::BindBacking,
            RenderCommand::Viewport { width: 640, height: 480 },
            RenderCommand::Clear,
            RenderCommand::HostTick,
        ]
    );
    assert_eq!(compositor.state, FrameState::ClearBacking);
    assert_eq!(compositor.backings, vec![LayerKind::Grid, LayerKind::Sprite]);

    let draws = compositor.step(&mut backend, &mut registry, &bterm).unwrap();
    assert_eq!(
        draws,
        vec![
            RenderCommand::DrawConsole { index: 0, font_index: 0, upload: true },
            RenderCommand::DrawConsole { index: 1, font_index: 1, upload: true },
            RenderCommand::RawCallback,
        ]
    );
    assert_eq!(compositor.state, FrameState::DrawConsoles);
    assert!(!registry.consoles[0].console.is_dirty());

    let blit = compositor.step(&mut backend, &mut registry, &bterm).unwrap();
    assert_eq!(
        blit,
        vec![
            RenderCommand::BindDefault,
            RenderCommand::Viewport { width: 640, height: 480 },
            RenderCommand::Clear,
        ]
    );
    assert_eq!(compositor.state, FrameState::BlitToScreen);

    let present = compositor.step(&mut backend, &mut registry, &bterm).unwrap();
    assert_eq!(
        present,
        vec![
            RenderCommand::UsePassthroughShader,
            RenderCommand::DrawQuad { left: 0, right: 0, top: 0, bottom: 0 },
            RenderCommand::Screenshot,
        ]
    );
    assert_eq!(compositor.state, FrameState::Idle);
    // the screenshot that was asked for is taken
    assert_eq!(backend.request_screenshot, None);

    // the next frame has nothing to create and nothing to upload
    backend.gl_callback = false;
    let start = compositor.step(&mut backend, &mut registry, &bterm).unwrap();
    assert_eq!(
        start,
        vec![
            RenderCommand::BindBacking,
            RenderCommand::Viewport { width: 640, height: 480 },
            RenderCommand::Clear,
            RenderCommand::HostTick,
        ]
    );
    let draws = compositor.step(&mut backend, &mut registry, &bterm).unwrap();
    assert_eq!(
        draws,
        vec![
            RenderCommand::DrawConsole { index: 0, font_index: 0, upload: false },
            RenderCommand::DrawConsole { index: 1, font_index: 1, upload: false },
        ]
    );
}

#[test]
fn frame_with_scanlines() {
    let mut registry = Registry::new();
    let (mut bterm, mut backend) = terminal(640, 480, InitHints::new());
    backend.screen_scaler.change_logical_size(640, 480, 1500);
    backend.quad_vao = Some((1, 2, 3, 4));
    bterm.post_scanlines = true;
    bterm.post_screenburn = true;
    let mut compositor = FrameCompositor::new();
    compositor.step(&mut backend, &mut registry, &bterm).unwrap();
    assert_eq!(compositor.step(&mut backend, &mut registry, &bterm), Ok(vec![]));
    compositor.step(&mut backend, &mut registry, &bterm).unwrap();
    assert_eq!(
        compositor.step(&mut backend, &mut registry, &bterm),
        Ok(vec![RenderCommand::UseScanlineShader {
            screen_size: (960, 720),
            screen_burn: true,
            burn_color: Rgba::from_u8(0, 255, 255, 255),
        }])
    );
    assert_eq!(compositor.state, FrameState::PostProcess);
    assert_eq!(
        compositor.step(&mut backend, &mut registry, &bterm),
        Ok(vec![RenderCommand::DrawQuad { left: 1, right: 2, top: 3, bottom: 4 }])
    );
    assert_eq!(compositor.state, FrameState::Idle);
}

#[test]
fn frame_reports_what_is_missing() {
    let mut registry = Registry::new();
    let bterm = terminal(640, 480, InitHints::new()).0;
    let mut compositor = FrameCompositor::new();

    let mut backend = PlatformGL::new();
    assert_eq!(compositor.step(&mut backend, &mut registry, &bterm), Err(ConfigError::MissingContext));
    backend.gl = true;
    assert_eq!(compositor.step(&mut backend, &mut registry, &bterm), Err(ConfigError::MissingBackingBuffer));
    backend.backing_buffer = Some((640, 480));
    assert_eq!(compositor.step(&mut backend, &mut registry, &bterm), Err(ConfigError::MissingQuad));
    assert_eq!(compositor.state, FrameState::Idle);
    backend.quad_vao = Some((0, 0, 0, 0));

    // a window without area: the application updates, nothing is drawn
    assert!(backend.screen_scaler.is_degenerate());
    assert_eq!(compositor.step(&mut backend, &mut registry, &bterm), Ok(vec![RenderCommand::HostTick]));
    assert_eq!(compositor.state, FrameState::Idle);

    backend.screen_scaler = ScreenScaler::new(0, 640, 480);
    registry.register_font(Font { tile_size: (8, 8), texture: None });
    registry.register_console(ConsoleLayer::Grid(GridConsole::new(1, 1)), 0);
    registry.register_console(ConsoleLayer::Grid(GridConsole::new(1, 1)), 3);
    compositor.step(&mut backend, &mut registry, &bterm).unwrap();
    // the first obstacle in drawing order is reported
    assert_eq!(
        compositor.step(&mut backend, &mut registry, &bterm),
        Err(ConfigError::MissingFontTexture { font: 0 })
    );
    assert_eq!(compositor.state, FrameState::ClearBacking);
    assert!(registry.consoles[0].console.is_dirty());
    registry.fonts[0].texture = Some(4);
    assert_eq!(
        compositor.step(&mut backend, &mut registry, &bterm),
        Err(ConfigError::MissingFont { console: 1 })
    );
    registry.consoles[1].font_index = 0;
    assert!(compositor.step(&mut backend, &mut registry, &bterm).is_ok());
    compositor.step(&mut backend, &mut registry, &bterm).unwrap();
    backend.quad_vao = None;
    assert_eq!(compositor.step(&mut backend, &mut registry, &bterm), Err(ConfigError::MissingQuad));
    assert_eq!(compositor.state, FrameState::BlitToScreen);
}

#[test]
fn backings_follow_the_registry() {
    let mut registry = grid_under_sprites();
    let (bterm, mut backend) = terminal(640, 480, InitHints::new());
    let mut compositor = FrameCompositor::new();
    compositor.backings = vec![LayerKind::Fancy, LayerKind::Sprite, LayerKind::Grid, LayerKind::Grid];
    let start = compositor.step(&mut backend, &mut registry, &bterm).unwrap();
    assert_eq!(
        start[..3],
        [
            RenderCommand::ReplaceBacking { index: 0, kind: LayerKind::Grid },
            RenderCommand::DestroyBacking { index: 2 },
            RenderCommand::DestroyBacking { index: 3 },
        ]
    );
    assert_eq!(start[3], RenderCommand::BindBacking);
    assert_eq!(compositor.backings, vec![LayerKind::Grid, LayerKind::Sprite]);
}

#[test]
fn resize_rebuilds_what_changed() {
    let mut registry = grid_under_sprites();
    let (mut bterm, mut backend) = terminal(640, 480, InitHints::new());
    let report = on_resize(&mut bterm, &mut backend, &mut registry, WindowSize { width: 1920, height: 1080 }, 1000, true).unwrap();
    // the largest tile is 8 by 8: 1920 and 1080 are whole numbers of tiles
    assert_eq!(
        report.commands,
        vec![
            RenderCommand::RebuildQuad { left: 240, right: 240, top: 0, bottom: 0 },
            RenderCommand::Viewport { width: 1920, height: 1080 },
        ]
    );
    assert_eq!(report.event, BEvent::Resized { new_size: (1920, 1080), dpi_scale_factor: 1000 });
    assert_eq!(backend.quad_vao, Some((240, 240, 0, 0)));
    assert_eq!(backend.backing_buffer, Some((640, 480)));
    assert_eq!(backend.screen_scaler.physical_size, (1920, 1080));
    assert_eq!((bterm.width_pixels, bterm.height_pixels), (1920, 1080));
    assert_eq!((bterm.original_width_pixels, bterm.original_height_pixels), (640, 480));
    // consoles of fixed size keep their cells
    assert_eq!(registry.consoles[0].console.get_char_size(), (10, 10));

    // the same size once more: nothing but the viewport
    let before = (backend.screen_scaler, backend.quad_vao, backend.backing_buffer);
    let again = on_resize(&mut bterm, &mut backend, &mut registry, WindowSize { width: 1920, height: 1080 }, 1000, true).unwrap();
    assert_eq!(again.commands, vec![RenderCommand::Viewport { width: 1920, height: 1080 }]);
    assert_eq!(again.event, report.event);
    assert_eq!((backend.screen_scaler, backend.quad_vao, backend.backing_buffer), before);

    // another scale factor changes the logical size, and the backing surface with it
    let scaled = on_resize(&mut bterm, &mut backend, &mut registry, WindowSize { width: 1920, height: 1080 }, 2000, false).unwrap();
    assert_eq!(
        scaled.commands,
        vec![
            RenderCommand::RebuildQuad { left: 240, right: 240, top: 0, bottom: 0 },
            RenderCommand::Viewport { width: 1920, height: 1080 },
            RenderCommand::RebuildBacking { width: 1280, height: 960 },
        ][1..]
    );
    assert_eq!(backend.backing_buffer, Some((1280, 960)));
    assert_eq!(scaled.event, BEvent::Resized { new_size: (1920, 1080), dpi_scale_factor: 2000 });

    let mut none = PlatformGL::new();
    let result = on_resize(&mut bterm, &mut none, &mut registry, WindowSize { width: 1, height: 1 }, 1000, true);
    assert!(matches!(result, Err(ConfigError::MissingContext)));
    assert_eq!(none, PlatformGL::new());
}

#[test]
fn resize_lets_consoles_grow() {
    let mut registry = Registry::new();
    registry.register_font(font(8, 16));
    registry.register_font(font(0, 16));
    let mut grid = GridConsole::new(10, 10);
    grid.set(0, 0, Rgba::white(), Rgba::black(), 65);
    registry.register_console(ConsoleLayer::Grid(grid), 0);
    registry.register_console(ConsoleLayer::Fancy(FancyConsole::new(10, 10)), 0);
    registry.register_console(ConsoleLayer::Grid(GridConsole::new(10, 10)), 1);
    registry.register_console(ConsoleLayer::Grid(GridConsole::new(10, 10)), 5);
    let mut hints = InitHints::new();
    hints.resize_scaling = true;
    hints.desired_gutter = 2;
    let (mut bterm, mut backend) = terminal(640, 480, hints);

    let report = on_resize(&mut bterm, &mut backend, &mut registry, WindowSize { width: 1000, height: 700 }, 1000, true).unwrap();
    // between the gutters 996 by 696 pixels are left, cut down to tiles of 8 by 16: 992 by 688
    assert_eq!(report.event, BEvent::Resized { new_size: (992, 688), dpi_scale_factor: 1000 });
    assert_eq!(backend.screen_scaler.logical_size, (992, 688));
    assert_eq!(backend.backing_buffer, Some((992, 688)));
    assert_eq!(backend.quad_vao, Some((4, 4, 6, 6)));
    assert_eq!(
        report.commands,
        vec![
            RenderCommand::RebuildQuad { left: 4, right: 4, top: 6, bottom: 6 },
            RenderCommand::Viewport { width: 1000, height: 700 },
            RenderCommand::RebuildBacking { width: 992, height: 688 },
        ]
    );
    assert_eq!((bterm.original_width_pixels, bterm.original_height_pixels), (1000, 700));
    assert_eq!(registry.consoles[0].console.get_char_size(), (124, 43));
    assert_eq!(registry.consoles[1].console.get_char_size(), (124, 43));
    // a font with an empty tile and a missing font leave their consoles alone
    assert_eq!(registry.consoles[2].console.get_char_size(), (10, 10));
    assert_eq!(registry.consoles[3].console.get_char_size(), (10, 10));
    assert_eq!(report.kept, vec![2, 3]);
    match &registry.consoles[0].console {
        ConsoleLayer::Grid(c) => assert_eq!(c.tile(0, 0).unwrap().glyph, 32),
        _ => panic!("a grid console was registered first"),
    }

    // the same size once more touches no console
    match &mut registry.consoles[0].console {
        ConsoleLayer::Grid(c) => c.set(0, 0, Rgba::white(), Rgba::black(), 66),
        _ => panic!("a grid console was registered first"),
    }
    let again = on_resize(&mut bterm, &mut backend, &mut registry, WindowSize { width: 1000, height: 700 }, 1000, true).unwrap();
    assert_eq!(again.commands, vec![RenderCommand::Viewport { width: 1000, height: 700 }]);
    assert_eq!(again.kept, vec![2, 3]);
    match &registry.consoles[0].console {
        ConsoleLayer::Grid(c) => assert_eq!(c.tile(0, 0).unwrap().glyph, 66),
        _ => panic!("a grid console was registered first"),
    }

    // without notice to the application nothing grows
    let quiet = on_resize(&mut bterm, &mut backend, &mut registry, WindowSize { width: 500, height: 350 }, 1000, false).unwrap();
    assert_eq!(registry.consoles[0].console.get_char_size(), (124, 43));
    assert_eq!((bterm.width_pixels, bterm.height_pixels), (1000, 700));
    assert_eq!(backend.screen_scaler.logical_size, (640, 480));
    assert_eq!(quiet.event, BEvent::Resized { new_size: (496, 336), dpi_scale_factor: 1000 });
    assert!(quiet.kept.is_empty());
}

#[test]
fn resize_names_the_grid_that_cannot_grow() {
    let mut registry = Registry::new();
    registry.register_font(font(1, 1));
    let mut grid = GridConsole::new(10, 10);
    grid.set(3, 3, Rgba::white(), Rgba::black(), 65);
    registry.register_console(ConsoleLayer::Grid(grid), 0);
    registry.register_console(ConsoleLayer::Fancy(FancyConsole::new(10, 10)), 0);
    let mut hints = InitHints::new();
    hints.resize_scaling = true;
    let (mut bterm, mut backend) = terminal(640, 480, hints);

    // ten thousand million cells of one pixel are more than a grid holds
    let report = on_resize(&mut bterm, &mut backend, &mut registry, WindowSize { width: 100000, height: 100000 }, 1000, true).unwrap();
    assert_eq!(report.event, BEvent::Resized { new_size: (100000, 100000), dpi_scale_factor: 1000 });
    assert_eq!(report.kept, vec![0]);
    assert_eq!(registry.consoles[0].console.get_char_size(), (10, 10));
    match &registry.consoles[0].console {
        ConsoleLayer::Grid(c) => assert_eq!(c.tile(3, 3).unwrap().glyph, 65),
        _ => panic!("a grid console was registered first"),
    }
    // free glyphs take no room until they are set
    assert_eq!(registry.consoles[1].console.get_char_size(), (100000, 100000));

    // a window in which the grid fits
    let report = on_resize(&mut bterm, &mut backend, &mut registry, WindowSize { width: 300, height: 200 }, 1000, true).unwrap();
    assert!(report.kept.is_empty());
    assert_eq!(registry.consoles[0].console.get_char_size(), (300, 200));
    match &registry.consoles[0].console {
        ConsoleLayer::Grid(c) => assert_eq!(c.tile(3, 3).unwrap().glyph, 32),
        _ => panic!("a grid console was registered first"),
    }
}

#[test]
fn mailbox_keeps_latest_value() {
    let mut mailbox = EventMailbox::new();
    assert_eq!(mailbox.take_resize(), None);
    mailbox.post_resize(100, 100);
    mailbox.post_resize(200, 150);
    mailbox.post_resize(300, 250);
    mailbox.post_key(30, false, false, false);
    mailbox.post_key(31, true, false, true);
    mailbox.post_mouse(1, 1);
    mailbox.post_mouse(10, -3);
    mailbox.post_click(true);
    mailbox.post_button("a".to_string());
    mailbox.post_button("b".to_string());
    // only the last size is taken, and only once
    assert_eq!(mailbox.take_resize(), Some(WindowSize { width: 300, height: 250 }));
    assert_eq!(mailbox.take_resize(), None);

    let mut bterm = terminal(640, 480, InitHints::new()).0;
    mailbox.deliver(&mut bterm, 1500);
    assert_eq!(bterm.key, Some(31));
    assert_eq!((bterm.shift, bterm.control, bterm.alt), (true, false, true));
    assert!(bterm.left_click);
    assert_eq!(bterm.web_button, Some("b".to_string()));
    // pointer positions are scaled and cut off towards zero
    assert_eq!(bterm.mouse_pos, (15, -4));

    mailbox.post_resize(1, 1);
    mailbox.clear();
    let mut expected = EventMailbox::new();
    expected.post_mouse(10, -3);
    assert_eq!(mailbox, expected);
    clear_input_state(&mut bterm);
    assert_eq!(bterm.key, None);
    assert_eq!((bterm.shift, bterm.control, bterm.alt, bterm.left_click), (false, false, false, false));
    assert_eq!(bterm.web_button, None);
    assert_eq!(bterm.mouse_pos, (15, -4));

    assert_eq!(scale_coordinate(7, 1000), 7);
    assert_eq!(scale_coordinate(7, 2500), 17);
    assert_eq!(scale_coordinate(-7, 2500), -17);
    assert_eq!(scale_coordinate(i32::MAX, 2000), i32::MAX);
    assert_eq!(scale_coordinate(i32::MIN, 2000), i32::MIN);
    assert_eq!(scale_coordinate(999, 1), 0);
}

#[test]
fn frame_start_takes_input_and_size() {
    let mut registry = grid_under_sprites();
    let (mut bterm, mut backend) = terminal(640, 480, InitHints::new());
    let mut mailbox = EventMailbox::new();
    mailbox.post_key(65, true, false, false);
    mailbox.post_mouse(4, 6);
    mailbox.post_resize(800, 600);
    mailbox.post_resize(1280, 960);

    let resize = begin_frame(&mut mailbox, &mut bterm, &mut backend, &mut registry).unwrap().unwrap();
    // the borders stay empty, but the window is another: the quad is built anew
    assert_eq!(
        resize.commands,
        vec![
            RenderCommand::RebuildQuad { left: 0, right: 0, top: 0, bottom: 0 },
            RenderCommand::Viewport { width: 1280, height: 960 },
        ]
    );
    assert_eq!(resize.event, BEvent::Resized { new_size: (1280, 960), dpi_scale_factor: 1000 });
    assert_eq!(bterm.key, Some(65));
    assert!(bterm.shift);
    assert_eq!(bterm.mouse_pos, (4, 6));
    assert_eq!((bterm.width_pixels, bterm.height_pixels), (1280, 960));
    assert_eq!(backend.screen_scaler.physical_size, (1280, 960));
    assert_eq!(mailbox.take_resize(), None);

    end_frame(&mut mailbox, &mut bterm);
    assert_eq!(bterm.key, None);
    assert!(!bterm.shift);
    let mut expected = EventMailbox::new();
    expected.post_mouse(4, 6);
    assert_eq!(mailbox, expected);

    // a frame without a new size
    let next = begin_frame(&mut mailbox, &mut bterm, &mut backend, &mut registry).unwrap();
    assert!(next.is_none());
    assert_eq!(bterm.mouse_pos, (4, 6));
}

#[test]
fn frame_start_reports_what_is_missing() {
    let mut registry = Registry::new();
    let mut bterm = terminal(640, 480, InitHints::new()).0;
    let mut mailbox = EventMailbox::new();
    mailbox.post_key(65, false, false, false);
    mailbox.post_resize(640, 480);
    let mut backend = PlatformGL::new();
    let r = begin_frame(&mut mailbox, &mut bterm, &mut backend, &mut registry);
    assert!(matches!(r, Err(ConfigError::MissingContext)));
    // nothing was handed over, and the size still waits
    assert_eq!(bterm.key, None);
    assert_eq!(backend, PlatformGL::new());
    let mut expected = EventMailbox::new();
    expected.post_key(65, false, false, false);
    expected.post_resize(640, 480);
    assert_eq!(mailbox, expected);

    // a window size brings quad and backing surface with it
    backend.gl = true;
    let r = begin_frame(&mut mailbox, &mut bterm, &mut backend, &mut registry).unwrap();
    assert!(r.is_some());
    assert_eq!(bterm.key, Some(65));
    assert_eq!(backend.backing_buffer, Some((0, 0)));
    assert_eq!(backend.quad_vao, Some((320, 320, 240, 240)));

    // without a new size the input is handed over whatever the backend lacks
    let mut bare = PlatformGL::new();
    let mut other = terminal(640, 480, InitHints::new()).0;
    mailbox.post_key(66, false, true, false);
    let r = begin_frame(&mut mailbox, &mut other, &mut bare, &mut registry).unwrap();
    assert!(r.is_none());
    assert_eq!(other.key, Some(66));
    assert!(other.control);
}

/// An application that counts its updates, notes the frame time that each
/// was handed, and does to terminal and consoles what `todo` says.
struct Probe {
    ticks: u32,
    frame_times: Vec<u128>,
    todo: Todo,
}

enum Todo {
    Nothing,
    WriteCell,
    Scanlines,
    AddConsole { font_index: usize },
}

impl Probe {
    fn new(todo: Todo) -> Probe {
        Probe { ticks: 0, frame_times: Vec::new(), todo }
    }
}

impl GameState for Probe {
    fn tick(&mut self, ctx: &mut BTerm, registry: &mut Registry) {
        self.ticks += 1;
        self.frame_times.push(ctx.frame_time_ms);
        match self.todo {
            Todo::Nothing => {},
            Todo::WriteCell => match &mut registry.consoles[0].console {
                ConsoleLayer::Grid(c) => c.set(1, 1, Rgba::white(), Rgba::black(), 64),
                _ => panic!("a grid console was registered first"),
            },
            Todo::Scanlines => {
                ctx.post_scanlines = true;
                ctx.post_screenburn = true;
            },
            Todo::AddConsole { font_index } => {
                registry.register_console(ConsoleLayer::Grid(GridConsole::new(2, 2)), font_index);
            },
        }
    }
}

#[test]
fn tock_runs_a_whole_frame() {
    let mut registry = grid_under_sprites();
    let (mut bterm, mut backend) = terminal(640, 480, InitHints::new());
    backend.gl_callback = true;
    backend.request_screenshot = Some("shot.png".to_string());
    let mut compositor = FrameCompositor::new();
    let mut clock = FrameClock::new(0, 0);
    let mut game = Probe::new(Todo::Nothing);

    let frame = tock_at(&mut bterm, &mut game, &mut clock, 0, 16, &mut compositor, &mut backend, &mut registry);
    assert_eq!(
        frame,
        Ok(vec![
            RenderCommand::CreateBacking { index: 0, kind: LayerKind::Grid },
            RenderCommand::CreateBacking { index: 1, kind: LayerKind::Sprite },
            RenderCommand::BindBacking,
            RenderCommand::Viewport { width: 640, height: 480 },
            RenderCommand::Clear,
            RenderCommand::HostTick,
            RenderCommand::DrawConsole { index: 0, font_index: 0, upload: true },
            RenderCommand::DrawConsole { index: 1, font_index: 1, upload: true },
            RenderCommand::RawCallback,
            RenderCommand::BindDefault,
            RenderCommand::Viewport { width: 640, height: 480 },
            RenderCommand::Clear,
            RenderCommand::UsePassthroughShader,
            RenderCommand::DrawQuad { left: 0, right: 0, top: 0, bottom: 0 },
            RenderCommand::Screenshot,
        ])
    );
    assert_eq!(game.ticks, 1);
    // the update saw the time of this frame
    assert_eq!(game.frame_times, vec![16]);
    assert_eq!(clock, FrameClock { frames: 1, prev_seconds: 0, prev_ms: 16 });
    assert_eq!(compositor.state, FrameState::Idle);
    assert_eq!(compositor.backings, vec![LayerKind::Grid, LayerKind::Sprite]);
    assert_eq!(backend.request_screenshot, None);
    assert!(!registry.consoles[0].console.is_dirty());
    assert!(!registry.consoles[1].console.is_dirty());

    // the next frame has nothing to create and nothing to upload
    backend.gl_callback = false;
    let frame = tock_at(&mut bterm, &mut game, &mut clock, 0, 33, &mut compositor, &mut backend, &mut registry);
    assert_eq!(
        frame,
        Ok(vec![
            RenderCommand::BindBacking,
            RenderCommand::Viewport { width: 640, height: 480 },
            RenderCommand::Clear,
            RenderCommand::HostTick,
            RenderCommand::DrawConsole { index: 0, font_index: 0, upload: false },
            RenderCommand::DrawConsole { index: 1, font_index: 1, upload: false },
            RenderCommand::BindDefault,
            RenderCommand::Viewport { width: 640, height: 480 },
            RenderCommand::Clear,
            RenderCommand::UsePassthroughShader,
            RenderCommand::DrawQuad { left: 0, right: 0, top: 0, bottom: 0 },
        ])
    );
    assert_eq!(game.ticks, 2);
    assert_eq!(game.frame_times, vec![16, 17]);
}

#[test]
fn tock_draws_what_the_update_wrote() {
    let mut registry = grid_under_sprites();
    let (mut bterm, mut backend) = terminal(640, 480, InitHints::new());
    let mut compositor = FrameCompositor::new();
    let mut clock = FrameClock::new(0, 0);
    let mut idle = Probe::new(Todo::Nothing);
    tock_at(&mut bterm, &mut idle, &mut clock, 0, 1, &mut compositor, &mut backend, &mut registry).unwrap();

    // what the update writes in a frame is drawn in that frame
    let mut writer = Probe::new(Todo::WriteCell);
    let frame = tock_at(&mut bterm, &mut writer, &mut clock, 0, 2, &mut compositor, &mut backend, &mut registry).unwrap();
    assert_eq!(
        frame[4..6],
        [
            RenderCommand::DrawConsole { index: 0, font_index: 0, upload: true },
            RenderCommand::DrawConsole { index: 1, font_index: 1, upload: false },
        ]
    );
    assert!(!registry.consoles[0].console.is_dirty());
    match &registry.consoles[0].console {
        ConsoleLayer::Grid(c) => {
            assert_eq!(c.tile(1, 1).unwrap().glyph, 64);
            // the geometry is whole, and holds the glyph that was written
            assert_eq!(c.geometry().len(), 100);
            assert_eq!((c.geometry()[11].atlas_column, c.geometry()[11].atlas_row), (0, 4));
        }
        _ => panic!("a grid console was registered first"),
    }

    // a console that the update adds gets its resources before it is drawn
    let mut adder = Probe::new(Todo::AddConsole { font_index: 0 });
    let frame = tock_at(&mut bterm, &mut adder, &mut clock, 0, 3, &mut compositor, &mut backend, &mut registry).unwrap();
    assert_eq!(
        frame[..8],
        [
            RenderCommand::BindBacking,
            RenderCommand::Viewport { width: 640, height: 480 },
            RenderCommand::Clear,
            RenderCommand::HostTick,
            RenderCommand::CreateBacking { index: 2, kind: LayerKind::Grid },
            RenderCommand::DrawConsole { index: 0, font_index: 0, upload: false },
            RenderCommand::DrawConsole { index: 1, font_index: 1, upload: false },
            RenderCommand::DrawConsole { index: 2, font_index: 0, upload: true },
        ]
    );
    assert_eq!(compositor.backings, vec![LayerKind::Grid, LayerKind::Sprite, LayerKind::Grid]);
    let frame = tock_at(&mut bterm, &mut idle, &mut clock, 0, 4, &mut compositor, &mut backend, &mut registry).unwrap();
    assert_eq!(frame[0], RenderCommand::BindBacking);
    assert_eq!(frame.len(), 12);
}

#[test]
fn tock_sets_up_the_shader_after_the_update() {
    let mut registry = Registry::new();
    let (mut bterm, mut backend) = terminal(640, 480, InitHints::new());
    backend.screen_scaler.change_logical_size(640, 480, 1500);
    backend.quad_vao = Some((1, 2, 3, 4));
    let mut compositor = FrameCompositor::new();
    let mut clock = FrameClock::new(0, 0);
    let mut game = Probe::new(Todo::Scanlines);
    let frame = tock_at(&mut bterm, &mut game, &mut clock, 2, 2500, &mut compositor, &mut backend, &mut registry);
    assert_eq!(
        frame,
        Ok(vec![
            RenderCommand::BindBacking,
            // the backing surface has the logical size, the screen that of the window
            RenderCommand::Viewport { width: 960, height: 720 },
            RenderCommand::Clear,
            RenderCommand::HostTick,
            RenderCommand::BindDefault,
            RenderCommand::Viewport { width: 640, height: 480 },
            RenderCommand::Clear,
            RenderCommand::UseScanlineShader {
                screen_size: (960, 720),
                screen_burn: true,
                burn_color: Rgba::from_u8(0, 255, 255, 255),
            },
            RenderCommand::DrawQuad { left: 1, right: 2, top: 3, bottom: 4 },
        ])
    );
    // one frame in two seconds
    assert_eq!(bterm.fps, 500);
    assert_eq!(clock, FrameClock { frames: 0, prev_seconds: 2, prev_ms: 2500 });
}

#[test]
fn tock_stops_before_anything_is_drawn() {
    let mut registry = grid_under_sprites();
    let mut bterm = terminal(640, 480, InitHints::new()).0;
    let mut compositor = FrameCompositor::new();
    let mut clock = FrameClock::new(0, 0);
    let mut game = Probe::new(Todo::WriteCell);

    let mut backend = PlatformGL::new();
    let r = tock_at(&mut bterm, &mut game, &mut clock, 1, 1000, &mut compositor, &mut backend, &mut registry);
    assert_eq!(r, Err(ConfigError::MissingContext));
    backend.gl = true;
    let r = tock_at(&mut bterm, &mut game, &mut clock, 1, 1000, &mut compositor, &mut backend, &mut registry);
    assert_eq!(r, Err(ConfigError::MissingBackingBuffer));
    backend.backing_buffer = Some((640, 480));
    let r = tock_at(&mut bterm, &mut game, &mut clock, 1, 1000, &mut compositor, &mut backend, &mut registry);
    assert_eq!(r, Err(ConfigError::MissingQuad));
    // no update ran, no frame was counted, no resource was asked for
    assert_eq!(game.ticks, 0);
    assert_eq!(clock, FrameClock::new(0, 0));
    assert_eq!(bterm.frame_time_ms, 0);
    assert_eq!(compositor.state, FrameState::Idle);
    assert!(compositor.backings.is_empty());
    assert!(registry.consoles[0].console.is_dirty());

    // no frame starts inside a frame
    backend.quad_vao = Some((0, 0, 0, 0));
    backend.screen_scaler = ScreenScaler::new(0, 640, 480);
    compositor.state = FrameState::DrawConsoles;
    let r = tock_at(&mut bterm, &mut game, &mut clock, 1, 1000, &mut compositor, &mut backend, &mut registry);
    assert_eq!(r, Err(ConfigError::FrameUnderWay));
    assert_eq!(game.ticks, 0);
    assert_eq!(compositor.state, FrameState::DrawConsoles);
    compositor.state = FrameState::Idle;
    let r = tock_at(&mut bterm, &mut game, &mut clock, 1, 1000, &mut compositor, &mut backend, &mut registry);
    assert_eq!(r.unwrap().len(), 13);
    assert_eq!(game.ticks, 1);
}

#[test]
fn tock_gives_up_a_frame_without_font() {
    let mut registry = grid_under_sprites();
    let (mut bterm, mut backend) = terminal(640, 480, InitHints::new());
    let mut compositor = FrameCompositor::new();
    let mut clock = FrameClock::new(0, 0);

    // the update adds a console whose font does not exist
    let mut game = Probe::new(Todo::AddConsole { font_index: 7 });
    let r = tock_at(&mut bterm, &mut game, &mut clock, 0, 5, &mut compositor, &mut backend, &mut registry);
    assert_eq!(r, Err(ConfigError::MissingFont { console: 2 }));
    // the update ran and the frame was counted, and no frame is under way
    assert_eq!(game.ticks, 1);
    assert_eq!(clock.frames, 1);
    assert_eq!(compositor.state, FrameState::Idle);
    assert_eq!(registry.consoles.len(), 3);
    // no console was rebuilt, and no resource counts as created
    assert!(registry.consoles[0].console.is_dirty());
    assert!(compositor.backings.is_empty());

    registry.consoles[2].font_index = 0;
    registry.fonts[0].texture = None;
    let mut idle = Probe::new(Todo::Nothing);
    let r = tock_at(&mut bterm, &mut idle, &mut clock, 0, 6, &mut compositor, &mut backend, &mut registry);
    assert_eq!(r, Err(ConfigError::MissingFontTexture { font: 0 }));
    registry.fonts[0].texture = Some(9);
    let r = tock_at(&mut bterm, &mut idle, &mut clock, 0, 7, &mut compositor, &mut backend, &mut registry).unwrap();
    // the frame that succeeds creates what the frames given up did not
    assert_eq!(
        r[..3],
        [
            RenderCommand::CreateBacking { index: 0, kind: LayerKind::Grid },
            RenderCommand::CreateBacking { index: 1, kind: LayerKind::Sprite },
            RenderCommand::CreateBacking { index: 2, kind: LayerKind::Grid },
        ]
    );
    assert_eq!(r.len(), 15);
    assert_eq!(clock.frames, 3);
    assert_eq!(compositor.backings, vec![LayerKind::Grid, LayerKind::Sprite, LayerKind::Grid]);
}

#[test]
fn tock_in_a_window_without_area() {
    let mut registry = grid_under_sprites();
    let mut bterm = terminal(640, 480, InitHints::new()).0;
    let mut backend = PlatformGL::new();
    backend.gl = true;
    backend.backing_buffer = Some((640, 480));
    backend.quad_vao = Some((0, 0, 0, 0));
    assert!(backend.screen_scaler.is_degenerate());
    let mut compositor = FrameCompositor::new();
    let mut clock = FrameClock::new(0, 0);
    let mut game = Probe::new(Todo::WriteCell);
    // the application updates, nothing is drawn
    let r = tock_at(&mut bterm, &mut game, &mut clock, 0, 9, &mut compositor, &mut backend, &mut registry);
    assert_eq!(r, Ok(vec![RenderCommand::HostTick]));
    assert_eq!(game.ticks, 1);
    assert_eq!(clock.frames, 1);
    assert_eq!(compositor.state, FrameState::Idle);
    assert!(registry.consoles[0].console.is_dirty());
}

#[test]
fn resize_rebuilds_quad_for_another_window() {
    let mut registry = grid_under_sprites();
    let (mut bterm, mut backend) = terminal(640, 480, InitHints::new());
    let first = on_resize(&mut bterm, &mut backend, &mut registry, WindowSize { width: 1920, height: 1080 }, 1000, true).unwrap();
    assert_eq!(first.commands[0], RenderCommand::RebuildQuad { left: 240, right: 240, top: 0, bottom: 0 });
    // a larger window with borders as wide: the share of the borders is another
    let second = on_resize(&mut bterm, &mut backend, &mut registry, WindowSize { width: 2400, height: 1440 }, 1000, true).unwrap();
    assert_eq!(backend.quad_vao, Some((240, 240, 0, 0)));
    assert_eq!(
        second.commands,
        vec![
            RenderCommand::RebuildQuad { left: 240, right: 240, top: 0, bottom: 0 },
            RenderCommand::Viewport { width: 2400, height: 1440 },
        ]
    );
}

#[test]
fn resize_of_the_surface_uploads_every_console() {
    let mut registry = grid_under_sprites();
    let (mut bterm, mut backend) = terminal(640, 480, InitHints::new());
    let mut compositor = FrameCompositor::new();
    let mut clock = FrameClock::new(0, 0);
    let mut game = Probe::new(Todo::Nothing);
    tock_at(&mut bterm, &mut game, &mut clock, 0, 1, &mut compositor, &mut backend, &mut registry).unwrap();
    assert!(!registry.consoles[0].console.is_dirty());

    // another window, the same surface: the consoles stay as they are
    on_resize(&mut bterm, &mut backend, &mut registry, WindowSize { width: 1280, height: 960 }, 1000, true).unwrap();
    assert!(!registry.consoles[0].console.is_dirty());
    assert!(!registry.consoles[1].console.is_dirty());

    // another scale factor, another surface: every console is built and sent anew
    let scaled = on_resize(&mut bterm, &mut backend, &mut registry, WindowSize { width: 1280, height: 960 }, 2000, true).unwrap();
    assert!(scaled.commands.contains(&RenderCommand::RebuildBacking { width: 1280, height: 960 }));
    assert!(registry.consoles[0].console.is_dirty());
    assert!(registry.consoles[1].console.is_dirty());
    let frame = tock_at(&mut bterm, &mut game, &mut clock, 0, 2, &mut compositor, &mut backend, &mut registry).unwrap();
    assert_eq!(
        frame[4..6],
        [
            RenderCommand::DrawConsole { index: 0, font_index: 0, upload: true },
            RenderCommand::DrawConsole { index: 1, font_index: 1, upload: true },
        ]
    );
}

#[test]
fn frame_clock_counts_frames() {
    let mut bterm = terminal(640, 480, InitHints::new()).0;
    let mut clock = FrameClock::new(0, 0);
    clock.tick(&mut bterm, 0, 16);
    clock.tick(&mut bterm, 0, 33);
    clock.tick(&mut bterm, 0, 33);
    assert_eq!(clock, FrameClock { frames: 3, prev_seconds: 0, prev_ms: 33 });
    assert_eq!(bterm.fps, 0);
    assert_eq!(bterm.frame_time_ms, 17);
    clock.tick(&mut bterm, 1, 1016);
    // four frames in one second
    assert_eq!(bterm.fps, 4000);
    assert_eq!(bterm.frame_time_ms, 983);
    assert_eq!(clock, FrameClock { frames: 0, prev_seconds: 1, prev_ms: 1016 });
    clock.tick(&mut bterm, 4, 4000);
    // one frame in three seconds
    assert_eq!(bterm.fps, 333);
    // a clock that goes back changes nothing but the count
    clock.tick(&mut bterm, 2, 2000);
    assert_eq!(clock, FrameClock { frames: 1, prev_seconds: 4, prev_ms: 4000 });
    assert_eq!(bterm.fps, 333);
    let mut full = FrameClock { frames: u32::MAX, prev_seconds: 0, prev_ms: 0 };
    full.tick(&mut bterm, 0, 0);
    assert_eq!(full.frames, u32::MAX);
}

#[test]
fn tock_reads_the_clock() {
    let start = instant::Instant::now();
    while start.elapsed().as_millis() < 3 {}
    let mut registry = grid_under_sprites();
    let (mut bterm, mut backend) = terminal(640, 480, InitHints::new());
    let mut compositor = FrameCompositor::new();
    let mut clock = FrameClock::new(0, 0);
    let mut game = Probe::new(Todo::Nothing);
    let frame = tock(&mut bterm, &mut game, &mut clock, &start, &mut compositor, &mut backend, &mut registry);
    assert_eq!(frame.unwrap().len(), 13);
    assert!(clock.prev_ms >= 3);
    assert_eq!(clock.prev_seconds as u128, clock.prev_ms / 1000);
    assert_eq!(bterm.frame_time_ms, clock.prev_ms);
    assert_eq!(game.frame_times, vec![clock.prev_ms]);
    assert!(clock.frames <= 1);
    let first = clock.prev_ms;
    while start.elapsed().as_millis() < first + 2 {}
    let frame = tock(&mut bterm, &mut game, &mut clock, &start, &mut compositor, &mut backend, &mut registry);
    assert_eq!(frame.unwrap().len(), 11);
    assert!(clock.prev_ms >= first + 2);
    assert_eq!(bterm.frame_time_ms, clock.prev_ms - first);
    assert_eq!(game.ticks, 2);
}

#[test]
fn frame_loop_never_nests_frames() {
    let mut state = FrameLoop::new();
    assert_eq!(state, FrameLoop { phase: LoopPhase::Idle, frames: 0 });
    // nothing is drawn before the loop was started
    assert_eq!(run(&mut state, LoopEvent::FrameDue), LoopAction::Ignore);
    assert_eq!(run(&mut state, LoopEvent::FrameDrawn), LoopAction::Ignore);
    assert_eq!(state.phase, LoopPhase::Idle);
    assert_eq!(run(&mut state, LoopEvent::Start), LoopAction::RequestFrame);
    assert_eq!(state.phase, LoopPhase::Scheduled);
    assert_eq!(run(&mut state, LoopEvent::Start), LoopAction::Ignore);
    assert_eq!(run(&mut state, LoopEvent::FrameDue), LoopAction::DrawFrame);
    assert_eq!(state.phase, LoopPhase::Drawing);
    // a frame that falls due while another is drawn is ignored
    assert_eq!(run(&mut state, LoopEvent::FrameDue), LoopAction::Ignore);
    assert_eq!(state, FrameLoop { phase: LoopPhase::Drawing, frames: 0 });
    assert_eq!(run(&mut state, LoopEvent::FrameDrawn), LoopAction::RequestFrame);
    assert_eq!(state, FrameLoop { phase: LoopPhase::Scheduled, frames: 1 });
    assert_eq!(run(&mut state, LoopEvent::FrameDue), LoopAction::DrawFrame);
    assert_eq!(run(&mut state, LoopEvent::FrameDrawn), LoopAction::RequestFrame);
    assert_eq!(state.frames, 2);
    let mut last = FrameLoop { phase: LoopPhase::Drawing, frames: u64::MAX };
    assert_eq!(run(&mut last, LoopEvent::FrameDrawn), LoopAction::RequestFrame);
    assert_eq!(last.frames, u64::MAX);
    let mut fresh = FrameLoop::new();
    assert_eq!(request_animation_frame(&mut fresh), LoopAction::RequestFrame);
    assert_eq!(fresh, FrameLoop { phase: LoopPhase::Scheduled, frames: 0 });
}

#[test]
fn terminal_starts_with_defaults() {
    let hints = InitHints::new();
    assert_eq!(
        hints,
        InitHints { vsync: true, fullscreen: false, frame_sleep_time: None, desired_gutter: 0, resize_scaling: false }
    );
    let custom = InitHints { frame_sleep_time: Some(16), desired_gutter: 8, resize_scaling: true, ..hints };
    let (mut bterm, backend, plan) = init_raw(640, 480, custom, 2000);
    assert_eq!(plan, InitPlan { canvas_size: (640, 480), shaders: 6, backing_size: (1280, 960) });
    assert!(backend.gl);
    assert_eq!(backend.quad_vao, Some((0, 0, 0, 0)));
    assert_eq!(backend.backing_buffer, Some((1280, 960)));
    assert_eq!(backend.frame_sleep_time, Some(16));
    assert!(backend.resize_scaling);
    assert!(!backend.gl_callback);
    assert_eq!(backend.resize_request, None);
    assert_eq!(backend.request_screenshot, None);
    assert_eq!(backend.screen_scaler.desired_gutter, 8);
    assert_eq!(backend.screen_scaler.logical_size, (1280, 960));
    assert_eq!(backend.screen_scaler.physical_size, (640, 480));
    assert_eq!((bterm.width_pixels, bterm.height_pixels), (640, 480));
    assert_eq!((bterm.original_width_pixels, bterm.original_height_pixels), (640, 480));
    assert_eq!((bterm.fps, bterm.frame_time_ms, bterm.active_console), (0, 0, 0));
    assert_eq!(bterm.mouse_pos, (0, 0));
    assert!(!bterm.quitting && !bterm.post_scanlines && !bterm.post_screenburn);
    assert_eq!(bterm.screen_burn_color, Rgba::from_u8(0, 255, 255, 255));
    bterm.resize_pixels(800, 600, false);
    assert_eq!((bterm.width_pixels, bterm.original_width_pixels), (800, 640));
    bterm.resize_pixels(900, 700, true);
    assert_eq!((bterm.height_pixels, bterm.original_height_pixels), (700, 700));
}
