use bracket_terminal::canvas::{on_external_resize, CanvasLayout};
use bracket_terminal::scaler::{fit, scale_dimension, ScreenScaler};

#[test]
fn letterbox_wide_window() {
    // 1920x1080 window, no gutter, 640x480 content at scale 1.0
    let mut s = ScreenScaler::new(0, 1920, 1080);
    s.change_logical_size(640, 480, 1000);
    assert_eq!(s.logical_size, (640, 480));
    assert_eq!(s.physical_size, (1920, 1080));
    assert_eq!(s.displayed_size, (1440, 1080));
    assert_eq!(s.get_backing_buffer_output_coordinates(), (240, 240, 0, 0));
    // uniform scale 2.25 = 1080 / 480
    let (num, den) = s.get_scale();
    assert_eq!((num, den), (1080, 480));
    assert_eq!(num * 100, 225 * den);
    assert!(!s.is_degenerate());
}

#[test]
fn letterbox_tall_window() {
    let mut s = ScreenScaler::new(0, 640, 480);
    s.change_physical_size(1000, 2000, 1000);
    // width fills: 1000 wide, 1000 * 480 / 640 = 750 high
    assert_eq!(s.displayed_size, (1000, 750));
    assert_eq!(s.get_backing_buffer_output_coordinates(), (0, 0, 625, 625));
    assert_eq!(s.get_scale(), (1000, 640));
}

#[test]
fn gutter_is_kept_on_every_side() {
    let s = ScreenScaler::new(10, 800, 600);
    assert_eq!((s.available_width, s.available_height), (780, 580));
    assert_eq!(s.displayed_size, (773, 580));
    assert_eq!(s.get_backing_buffer_output_coordinates(), (13, 14, 10, 10));
    let (l, r, t, b) = s.get_backing_buffer_output_coordinates();
    assert_eq!(l + s.displayed_size.0 + r, 800);
    assert_eq!(t + s.displayed_size.1 + b, 600);
    assert!(s.displayed_size.0 <= s.available_width && s.displayed_size.1 <= s.available_height);
    assert!(s.available_width <= 800 && s.available_height <= 600);
}

#[test]
fn aspect_is_kept_within_one_pixel() {
    let mut s = ScreenScaler::new(3, 640, 480);
    s.change_physical_size(1013, 777, 1000);
    let (dw, dh) = (s.displayed_size.0 as u64, s.displayed_size.1 as u64);
    let (lw, lh) = (s.logical_size.0 as u64, s.logical_size.1 as u64);
    // one axis fills, the other is the exact extent rounded down
    let width_fills = dw == s.available_width as u64 && dh * lw <= dw * lh && dw * lh < (dh + 1) * lw;
    let height_fills = dh == s.available_height as u64 && dw * lh <= dh * lw && dh * lw < (dw + 1) * lh;
    assert!(width_fills || height_fills);
    assert_eq!(s.displayed_size, (1007, 755));
}

#[test]
fn resize_twice_is_resize_once() {
    let mut once = ScreenScaler::new(4, 640, 480);
    once.change_physical_size_smooth(1000, 700, 1250, (8, 16));
    let mut twice = once;
    twice.change_physical_size_smooth(1000, 700, 1250, (8, 16));
    assert_eq!(once, twice);
    // and the state does not depend on what came before
    let mut other = ScreenScaler::new(4, 640, 480);
    other.change_physical_size(300, 200, 2000);
    other.change_physical_size_smooth(1000, 700, 1250, (8, 16));
    assert_eq!(once, other);
}

#[test]
fn smooth_resize_aligns_to_tiles() {
    let mut s = ScreenScaler::new(0, 640, 480);
    s.change_physical_size_smooth(1000, 700, 1000, (8, 16));
    assert_eq!((s.available_width, s.available_height), (1000, 688));
    assert_eq!(s.available_height % 16, 0);
    // without rounding a tile would take 8 * 688 / 480 = 11.47 pixels; it takes 11
    assert_eq!(s.get_scale(), (11, 8));
    assert_eq!(s.displayed_size, (880, 660));
    assert_eq!(s.get_backing_buffer_output_coordinates(), (60, 60, 20, 20));
    // a tile without width is aligned by its height
    s.change_physical_size_smooth(1000, 700, 1000, (0, 16));
    assert_eq!((s.available_width, s.available_height), (1000, 688));
    assert_eq!(s.get_scale(), (22, 16));
    assert_eq!(s.displayed_size, (880, 660));
    // a tile size of zero leaves everything as it is
    s.change_physical_size_smooth(1000, 700, 1000, (0, 0));
    assert_eq!((s.available_width, s.available_height), (1000, 700));
    assert_eq!(s.displayed_size, (933, 700));
    assert_eq!(s.get_scale(), (700, 480));
    // where a tile would take less than a pixel, the scale is not rounded
    s.change_physical_size_smooth(64, 48, 1000, (8, 8));
    assert_eq!(s.displayed_size, (64, 48));
    assert_eq!(s.get_scale(), (64, 640));
    // a window smaller than one tile has no room for content
    s.change_physical_size_smooth(7, 700, 1000, (8, 16));
    assert_eq!((s.available_width, s.available_height), (0, 688));
    assert!(s.is_degenerate());
    assert_eq!(s.get_backing_buffer_output_coordinates(), (3, 4, 350, 350));
}

#[test]
fn scale_factor_adjusts_logical_size() {
    let mut s = ScreenScaler::new(0, 640, 480);
    s.change_logical_size(640, 480, 1500);
    assert_eq!(s.logical_size, (960, 720));
    assert_eq!(s.scale_factor, 1500);
    assert_eq!(s.desired_size, (640, 480));
    s.change_physical_size(1280, 960, 2000);
    assert_eq!(s.logical_size, (1280, 960));
    assert_eq!(s.displayed_size, (1280, 960));
    assert_eq!(scale_dimension(3, 1500), 4);
    assert_eq!(scale_dimension(u32::MAX, 2000), u32::MAX);
}

#[test]
fn empty_window_is_degenerate() {
    let s = ScreenScaler::new(0, 0, 0);
    assert!(s.is_degenerate());
    assert_eq!(s.displayed_size, (0, 0));
    assert_eq!(s, ScreenScaler::default());
    // a gutter wider than the window leaves nothing
    let g = ScreenScaler::new(100, 150, 150);
    assert_eq!((g.available_width, g.available_height), (0, 0));
    assert!(g.is_degenerate());
    let mut z = ScreenScaler::new(0, 640, 480);
    z.change_physical_size(0, 480, 1000);
    assert!(z.is_degenerate());
    assert_eq!(z.get_backing_buffer_output_coordinates(), (0, 0, 240, 240));
}

#[test]
fn grow_fills_available_space() {
    let mut s = ScreenScaler::new(10, 800, 600);
    s.grow_to_available();
    assert_eq!(s.logical_size, (780, 580));
    assert_eq!(s.displayed_size, (780, 580));
    assert_eq!(s.get_backing_buffer_output_coordinates(), (10, 10, 10, 10));
    assert_eq!(s.get_scale(), (780, 780));
    let once = s;
    s.grow_to_available();
    assert_eq!(s, once);
}

#[test]
fn fit_keeps_proportions() {
    assert_eq!(fit((640, 480), (1920, 1080)), (1440, 1080));
    assert_eq!(fit((4, 3), (3, 3)), (3, 2));
    assert_eq!(fit((0, 3), (3, 3)), (0, 0));
    assert_eq!(fit((4, 3), (3, 0)), (0, 0));
    assert_eq!(fit((u32::MAX, 1), (u32::MAX, u32::MAX)), (u32::MAX, 1));
}

#[test]
fn canvas_fits_window() {
    assert_eq!(
        on_external_resize((640, 480), (1000, 1000), 2000),
        CanvasLayout { style_size: (1000, 750), pixel_size: (2000, 1500) }
    );
    assert_eq!(
        on_external_resize((640, 480), (1000, 300), 1500),
        CanvasLayout { style_size: (400, 300), pixel_size: (600, 450) }
    );
    // the canvas is 333 by 249.75 on the page; 333 * 1.25 = 416.25 and 249.75 * 1.25 = 312.19
    assert_eq!(
        on_external_resize((4, 3), (333, 250), 1250),
        CanvasLayout { style_size: (333, 249), pixel_size: (416, 312) }
    );
    // the device size is rounded from the exact size: 1001 * 480 / 640 = 750.75
    assert_eq!(
        on_external_resize((640, 480), (1001, 2000), 1000),
        CanvasLayout { style_size: (1001, 750), pixel_size: (1001, 751) }
    );
    assert_eq!(
        on_external_resize((3, 2), (10, 100), 1000),
        CanvasLayout { style_size: (10, 6), pixel_size: (10, 7) }
    );
    // a half is rounded up: 5 * 1 / 2 = 2.5, and 100 * 3 / 2 = 150 as it is
    assert_eq!(
        on_external_resize((2, 1), (5, 100), 1000),
        CanvasLayout { style_size: (5, 2), pixel_size: (5, 3) }
    );
    assert_eq!(
        on_external_resize((3, 2), (1000, 100), 1000),
        CanvasLayout { style_size: (150, 100), pixel_size: (150, 100) }
    );
    assert_eq!(
        on_external_resize((1, 1), (u32::MAX, u32::MAX), 2000),
        CanvasLayout { style_size: (u32::MAX, u32::MAX), pixel_size: (u32::MAX, u32::MAX) }
    );
    assert_eq!(
        on_external_resize((0, 0), (1000, 300), 1000),
        CanvasLayout { style_size: (0, 0), pixel_size: (0, 0) }
    );
}
