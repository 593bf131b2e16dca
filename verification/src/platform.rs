//! The state of the terminal and of its rendering backend.
//!
//! What lives on the graphics device is named here by plain values: a
//! backing surface by its size, the screen quad by the borders it was built
//! with, a texture by its handle. Whoever talks to the device keeps the
//! resources themselves.

use vstd::prelude::*;
use crate::color::Rgba;
use crate::scaler::{scaled_dimension, ScreenScaler};

verus! {

/// What an application asks of the platform when the terminal starts.
#[derive(Clone, Copy, Debug, PartialEq, Eq)]
pub struct InitHints {
    pub vsync: bool,
    pub fullscreen: bool,
    /// The time to wait between two frames, in milliseconds.
    pub frame_sleep_time: Option<u64>,
    /// The smallest border to keep free around the content, in pixels.
    pub desired_gutter: u32,
    /// Whether the consoles grow and shrink with the window.
    pub resize_scaling: bool,
}

impl InitHints {
    /// The hints of an application that asks for nothing special.
    pub open spec fn spec_new() -> InitHints {
        InitHints {
            vsync: true,
            fullscreen: false,
            frame_sleep_time: None,
            desired_gutter: 0,
            resize_scaling: false,
        }
    }

    /// The hints of an application that asks for nothing special: vertical
    /// sync, a window, no wait between frames, no gutter, consoles of fixed
    /// size.
    pub fn new() -> (hints: InitHints)
        ensures
            hints == InitHints::spec_new(),
    {
        InitHints {
            vsync: true,
            fullscreen: false,
            frame_sleep_time: None,
            desired_gutter: 0,
            resize_scaling: false,
        }
    }
}

/// The state of the rendering backend.
#[derive(Debug, PartialEq, Eq)]
pub struct PlatformGL {
    /// Whether the graphics context was created.
    pub gl: bool,
    /// The borders that the screen quad was built with: left, right, top,
    /// bottom. `None` until it was built.
    pub quad_vao: Option<(u32, u32, u32, u32)>,
    /// The size of the backing surface. `None` until it was created.
    pub backing_buffer: Option<(u32, u32)>,
    /// The time to wait between two frames, in milliseconds.
    pub frame_sleep_time: Option<u64>,
    /// Whether the application registered a callback for drawing of its
    /// own.
    pub gl_callback: bool,
    /// Whether the consoles grow and shrink with the window.
    pub resize_scaling: bool,
    /// A window size that was asked for and not yet taken over.
    pub resize_request: Option<(u32, u32)>,
    /// The mapping from logical to physical pixels.
    pub screen_scaler: ScreenScaler,
    /// The name under which a screenshot was asked for.
    pub request_screenshot: Option<String>,
}

impl PlatformGL {
    /// The backend before anything was created.
    pub fn new() -> (backend: PlatformGL)
        ensures
            backend == (PlatformGL {
                gl: false,
                quad_vao: None,
                backing_buffer: None,
                frame_sleep_time: None,
                gl_callback: false,
                resize_scaling: false,
                resize_request: None,
                screen_scaler: ScreenScaler::spec_new(0, 0, 0),
                request_screenshot: None,
            }),
    {
        PlatformGL {
            gl: false,
            quad_vao: None,
            backing_buffer: None,
            frame_sleep_time: None,
            gl_callback: false,
            resize_scaling: false,
            resize_request: None,
            screen_scaler: ScreenScaler::new(0, 0, 0),
            request_screenshot: None,
        }
    }
}

/// The state of the terminal as the application sees it.
#[derive(Debug, PartialEq, Eq)]
pub struct BTerm {
    pub width_pixels: u32,
    pub height_pixels: u32,
    pub original_width_pixels: u32,
    pub original_height_pixels: u32,
    /// Frames per second, in thousandths.
    pub fps: u64,
    /// The time that the last frame took, in milliseconds.
    pub frame_time_ms: u128,
    pub active_console: usize,
    /// The code of the key that was pressed since the last frame.
    pub key: Option<u32>,
    pub mouse_pos: (i32, i32),
    pub left_click: bool,
    pub shift: bool,
    pub alt: bool,
    pub control: bool,
    /// The page element that was clicked since the last frame.
    pub web_button: Option<String>,
    pub quitting: bool,
    pub post_scanlines: bool,
    pub post_screenburn: bool,
    pub screen_burn_color: Rgba,
}

impl BTerm {
    /// The terminal of a window of the given size before its first frame.
    pub open spec fn spec_new(width_pixels: u32, height_pixels: u32) -> BTerm {
        BTerm {
            width_pixels,
            height_pixels,
            original_width_pixels: width_pixels,
            original_height_pixels: height_pixels,
            fps: 0,
            frame_time_ms: 0,
            active_console: 0,
            key: None,
            mouse_pos: (0, 0),
            left_click: false,
            shift: false,
            alt: false,
            control: false,
            web_button: None,
            quitting: false,
            post_scanlines: false,
            post_screenburn: false,
            screen_burn_color: Rgba { r: 0, g: 255, b: 255, a: 255 },
        }
    }

    /// Takes over a new window size. With scaling switched on, the new size
    /// also becomes the size that the terminal counts as its own.
    pub fn resize_pixels(&mut self, width: u32, height: u32, scaling_enabled: bool)
        ensures
            *final(self) == (BTerm {
                width_pixels: width,
                height_pixels: height,
                original_width_pixels: if scaling_enabled {
                    width
                } else {
                    old(self).original_width_pixels
                },
                original_height_pixels: if scaling_enabled {
                    height
                } else {
                    old(self).original_height_pixels
                },
                ..*old(self)
            }),
    {
        self.width_pixels = width;
        self.height_pixels = height;
        if scaling_enabled {
            self.original_width_pixels = width;
            self.original_height_pixels = height;
        }
    }
}

/// What the platform is to create when the terminal starts, in this order.
#[derive(Clone, Copy, Debug, PartialEq, Eq)]
pub struct InitPlan {
    /// The size of the canvas, in pixels.
    pub canvas_size: (u32, u32),
    /// The number of shaders to load; the third draws the backing surface
    /// onto the screen as it is, the fourth with scanlines.
    pub shaders: usize,
    /// The size of the backing surface.
    pub backing_size: (u32, u32),
}

/// The number of shaders that the terminal loads.
pub const SHADER_COUNT: usize = 6;

/// The number of the shader that draws the backing surface as it is.
pub const SHADER_BACKING: usize = 2;

/// The number of the shader that draws the backing surface with scanlines.
pub const SHADER_SCANLINES: usize = 3;

/// The backend of a terminal that starts in a window of the given size on a
/// display with the given scale factor: the context created, the screen
/// quad built without borders, the backing surface at the logical size.
pub open spec fn initial_backend(
    width_pixels: u32,
    height_pixels: u32,
    hints: InitHints,
    scale: u32,
) -> PlatformGL {
    let scaler = ScreenScaler::spec_new(
        hints.desired_gutter,
        width_pixels,
        height_pixels,
    ).with_logical_size(width_pixels, height_pixels, scale);
    PlatformGL {
        gl: true,
        quad_vao: Some((0, 0, 0, 0)),
        backing_buffer: Some(scaler.logical_size),
        frame_sleep_time: hints.frame_sleep_time,
        gl_callback: false,
        resize_scaling: hints.resize_scaling,
        resize_request: None,
        screen_scaler: scaler,
        request_screenshot: None,
    }
}

/// Sets up the state of a terminal that starts in a window of
/// `width_pixels` by `height_pixels` on a display with the scale factor
/// `scale`, in thousandths. Returns the terminal, the backend, and what the
/// platform is to create for them.
pub fn init_raw(width_pixels: u32, height_pixels: u32, platform_hints: InitHints, scale: u32) -> (r: (
    BTerm,
    PlatformGL,
    InitPlan,
))
    ensures
        r.0 == BTerm::spec_new(width_pixels, height_pixels),
        r.1 == initial_backend(width_pixels, height_pixels, platform_hints, scale),
        r.1.screen_scaler.wf(),
        r.2 == (InitPlan {
            canvas_size: (width_pixels, height_pixels),
            shaders: SHADER_COUNT,
            backing_size: (
                scaled_dimension(width_pixels, scale),
                scaled_dimension(height_pixels, scale),
            ),
        }),
{
    let mut scaler = ScreenScaler::new(platform_hints.desired_gutter, width_pixels, height_pixels);
    scaler.change_logical_size(width_pixels, height_pixels, scale);
    let backend = PlatformGL {
        gl: true,
        quad_vao: Some((0, 0, 0, 0)),
        backing_buffer: Some(scaler.logical_size),
        frame_sleep_time: platform_hints.frame_sleep_time,
        gl_callback: false,
        resize_scaling: platform_hints.resize_scaling,
        resize_request: None,
        screen_scaler: scaler,
        request_screenshot: None,
    };
    let bterm = BTerm {
        width_pixels,
        height_pixels,
        original_width_pixels: width_pixels,
        original_height_pixels: height_pixels,
        fps: 0,
        frame_time_ms: 0,
        active_console: 0,
        key: None,
        mouse_pos: (0, 0),
        left_click: false,
        shift: false,
        alt: false,
        control: false,
        web_button: None,
        quitting: false,
        post_scanlines: false,
        post_screenburn: false,
        screen_burn_color: Rgba::from_u8(0, 255, 255, 255),
    };
    let plan = InitPlan {
        canvas_size: (width_pixels, height_pixels),
        shaders: SHADER_COUNT,
        backing_size: scaler.logical_size,
    };
    (bterm, backend, plan)
}

} // verus!
