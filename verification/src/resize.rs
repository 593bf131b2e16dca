//! The resize coordinator: what follows when the window takes a new size.
//!
//! A new window size or scale factor is taken over by the screen scaler.
//! The screen quad is built anew if its borders changed, and the backing
//! surface if the logical size changed. Where the consoles grow with the
//! window, the logical size becomes the space between the gutters and every
//! console is given as many cells as fit. Taking the same size twice leaves
//! everything as the first time left it.

use vstd::prelude::*;
use crate::compositor::{ConfigError, RenderCommand};
use crate::platform::{BTerm, PlatformGL};
use crate::console::MAX_CELLS;
use crate::registry::{
    lemma_regridded_cells,
    lemma_unfit,
    largest_active_font,
    Registry,
    RegistryView,
};
use crate::scaler::{lemma_grown_fills, lemma_recalculated_wf, ScreenScaler};

verus! {

/// The size of a window, in physical pixels.
#[derive(Clone, Copy, Debug, PartialEq, Eq, Structural)]
pub struct WindowSize {
    pub width: u32,
    pub height: u32,
}

/// What the application is told.
#[derive(Clone, Copy, Debug, PartialEq, Eq)]
pub enum BEvent {
    /// The window was resized: the space between the gutters, in pixels,
    /// and the scale factor of the display, in thousandths.
    Resized { new_size: (u32, u32), dpi_scale_factor: u32 },
}

/// What a resize asks of the platform.
pub struct ResizeReport {
    /// The commands to the graphics device.
    pub commands: Vec<RenderCommand>,
    /// The event to hand to the application.
    pub event: BEvent,
    /// The numbers of the consoles that were to grow with the window and
    /// kept their size, in increasing order.
    pub kept: Vec<usize>,
}

/// Whether a resize lets the consoles grow.
pub open spec fn grows(backend: PlatformGL, send_event: bool) -> bool {
    backend.resize_scaling && send_event
}

/// The screen scaler after a resize.
pub open spec fn resized_scaler(
    backend: PlatformGL,
    registry: RegistryView,
    size: WindowSize,
    scale: u32,
    send_event: bool,
) -> ScreenScaler {
    let taken = backend.screen_scaler.resized(
        size.width,
        size.height,
        scale,
        registry.largest_tile(registry.consoles.len() as int),
    );
    if grows(backend, send_event) {
        taken.grown()
    } else {
        taken
    }
}

/// The borders of a scaler: left, right, top, bottom.
pub open spec fn borders(scaler: ScreenScaler) -> (u32, u32, u32, u32) {
    (scaler.gutter_left, scaler.gutter_right, scaler.gutter_top, scaler.gutter_bottom)
}

/// The backend after a resize: the scaler has taken the size over, the
/// screen quad has the scaler's borders and the backing surface the
/// logical size.
pub open spec fn resized_backend(
    backend: PlatformGL,
    registry: RegistryView,
    size: WindowSize,
    scale: u32,
    send_event: bool,
) -> PlatformGL {
    let scaler = resized_scaler(backend, registry, size, scale, send_event);
    PlatformGL {
        screen_scaler: scaler,
        quad_vao: Some(borders(scaler)),
        backing_buffer: Some(scaler.logical_size),
        ..backend
    }
}

/// The registry after a resize: where the consoles grow, each is given as
/// many cells as fit between the gutters; and where the backing surface
/// takes another size, every console is marked dirty, since the geometry
/// that the device holds is laid out for the surface as it was.
pub open spec fn resized_registry(
    backend: PlatformGL,
    registry: RegistryView,
    size: WindowSize,
    scale: u32,
    send_event: bool,
) -> RegistryView {
    let scaler = resized_scaler(backend, registry, size, scale, send_event);
    let sized = if grows(backend, send_event) {
        registry.regridded((scaler.available_width, scaler.available_height))
    } else {
        registry
    };
    if backend.backing_buffer == Some(scaler.logical_size) {
        sized
    } else {
        sized.invalidated()
    }
}

/// The terminal after a resize.
pub open spec fn resized_bterm(bterm: BTerm, backend: PlatformGL, size: WindowSize, send_event: bool) -> BTerm {
    if send_event {
        BTerm {
            width_pixels: size.width,
            height_pixels: size.height,
            original_width_pixels: if backend.resize_scaling {
                size.width
            } else {
                bterm.original_width_pixels
            },
            original_height_pixels: if backend.resize_scaling {
                size.height
            } else {
                bterm.original_height_pixels
            },
            ..bterm
        }
    } else {
        bterm
    }
}

/// The commands of a resize: the screen quad is built anew if its borders
/// or the window changed, since it is laid out as shares of the window; the
/// viewport is set to the window; and the backing surface is created anew
/// if the logical size changed.
pub open spec fn resize_commands(before: PlatformGL, after: PlatformGL, size: WindowSize) -> Seq<
    RenderCommand,
> {
    let quad = after.quad_vao->0;
    let backing = after.backing_buffer->0;
    (if before.quad_vao == after.quad_vao && before.screen_scaler.physical_size
        == after.screen_scaler.physical_size {
        Seq::<RenderCommand>::empty()
    } else {
        seq![
            RenderCommand::RebuildQuad {
                left: quad.0,
                right: quad.1,
                top: quad.2,
                bottom: quad.3,
            },
        ]
    }) + seq![RenderCommand::Viewport { width: size.width, height: size.height }] + (if before.backing_buffer
        == after.backing_buffer {
        Seq::<RenderCommand>::empty()
    } else {
        seq![RenderCommand::RebuildBacking { width: backing.0, height: backing.1 }]
    })
}

/// The numbers of the consoles that are to grow with the window and keep
/// their size: those whose font is missing or has an empty tile, and the
/// character grids that would get more than `MAX_CELLS` cells.
pub open spec fn resize_kept(
    backend: PlatformGL,
    registry: RegistryView,
    size: WindowSize,
    scale: u32,
    send_event: bool,
) -> Seq<usize> {
    let scaler = resized_scaler(backend, registry, size, scale, send_event);
    if grows(backend, send_event) {
        registry.unfit(
            (scaler.available_width, scaler.available_height),
            registry.consoles.len() as int,
        )
    } else {
        Seq::empty()
    }
}

/// Takes over a new window size and scale factor, in thousandths. Returns
/// what the platform is to do and what the application is to be told: the
/// space between the gutters and the scale factor. Where the consoles grow
/// with the window, each is given as many whole cells of its font as fit
/// between the gutters; one whose font is missing or has an empty tile
/// keeps its size, and so does a character grid that would get more than
/// `MAX_CELLS` cells, and the report names them. Where the backing surface
/// takes another size, every console is marked for rebuilding. Without a
/// graphics context nothing is changed and the error is returned.
pub fn on_resize(
    bterm: &mut BTerm,
    backend: &mut PlatformGL,
    registry: &mut Registry,
    physical_size: WindowSize,
    dpi_scale_factor: u32,
    send_event: bool,
) -> (r: Result<ResizeReport, ConfigError>)
    ensures
        match r {
            Ok(report) => {
                let after = resized_backend(
                    *old(backend),
                    old(registry)@,
                    physical_size,
                    dpi_scale_factor,
                    send_event,
                );
                &&& old(backend).gl
                &&& *final(backend) == after
                &&& final(backend).screen_scaler.wf()
                &&& final(registry)@ == resized_registry(
                    *old(backend),
                    old(registry)@,
                    physical_size,
                    dpi_scale_factor,
                    send_event,
                )
                &&& *final(bterm) == resized_bterm(
                    *old(bterm),
                    *old(backend),
                    physical_size,
                    send_event,
                )
                &&& report.commands@ == resize_commands(*old(backend), after, physical_size)
                &&& report.event == (BEvent::Resized {
                    new_size: (
                        after.screen_scaler.available_width,
                        after.screen_scaler.available_height,
                    ),
                    dpi_scale_factor,
                })
                &&& report.kept@ == resize_kept(
                    *old(backend),
                    old(registry)@,
                    physical_size,
                    dpi_scale_factor,
                    send_event,
                )
            },
            Err(e) => {
                &&& e == ConfigError::MissingContext
                &&& !old(backend).gl
                &&& *final(backend) == *old(backend)
                &&& final(registry)@ == old(registry)@
                &&& *final(bterm) == *old(bterm)
            },
        },
{
    if !backend.gl {
        return Err(ConfigError::MissingContext);
    }
    let grow = backend.resize_scaling && send_event;
    let window = backend.screen_scaler.physical_size;
    let font_max_size = largest_active_font(registry);
    backend.screen_scaler.change_physical_size_smooth(
        physical_size.width,
        physical_size.height,
        dpi_scale_factor,
        font_max_size,
    );
    if grow {
        backend.screen_scaler.grow_to_available();
    }
    let quad = backend.screen_scaler.get_backing_buffer_output_coordinates();
    let mut commands: Vec<RenderCommand> = Vec::new();
    let quad_changed = match backend.quad_vao {
        Some(old_quad) => old_quad.0 != quad.0 || old_quad.1 != quad.1 || old_quad.2 != quad.2
            || old_quad.3 != quad.3,
        None => true,
    } || window.0 != physical_size.width || window.1 != physical_size.height;
    if quad_changed {
        commands.push(
            RenderCommand::RebuildQuad { left: quad.0, right: quad.1, top: quad.2, bottom: quad.3 },
        );
    }
    backend.quad_vao = Some(quad);
    if send_event {
        bterm.resize_pixels(physical_size.width, physical_size.height, backend.resize_scaling);
    }
    commands.push(
        RenderCommand::Viewport { width: physical_size.width, height: physical_size.height },
    );
    let logical = backend.screen_scaler.logical_size;
    let backing_changed = match backend.backing_buffer {
        Some(old_size) => old_size.0 != logical.0 || old_size.1 != logical.1,
        None => true,
    };
    if backing_changed {
        commands.push(RenderCommand::RebuildBacking { width: logical.0, height: logical.1 });
    }
    backend.backing_buffer = Some(logical);
    let available = (backend.screen_scaler.available_width, backend.screen_scaler.available_height);
    let kept = if grow {
        registry.regrid(available)
    } else {
        Vec::new()
    };
    if backing_changed {
        registry.invalidate_all();
    }
    proof {
        let after = resized_backend(
            *old(backend),
            old(registry)@,
            physical_size,
            dpi_scale_factor,
            send_event,
        );
        assert(commands@ =~= resize_commands(*old(backend), after, physical_size));
    }
    Ok(
        ResizeReport {
            commands,
            event: BEvent::Resized { new_size: available, dpi_scale_factor },
            kept,
        },
    )
}

/// Giving the consoles their cells changes neither a font nor which font
/// a console has, so the largest tile stays what it was.
pub proof fn lemma_regridded_keeps_tiles(registry: RegistryView, available: (u32, u32), upto: int)
    requires
        0 <= upto <= registry.consoles.len(),
    ensures
        registry.regridded(available).largest_tile(upto) == registry.largest_tile(upto),
    decreases upto,
{
    if upto > 0 {
        lemma_regridded_keeps_tiles(registry, available, upto - 1);
    }
}

/// Marking the consoles dirty changes neither a font nor which font a
/// console has, so the largest tile stays what it was.
pub proof fn lemma_invalidated_keeps_tiles(registry: RegistryView, upto: int)
    requires
        0 <= upto <= registry.consoles.len(),
    ensures
        registry.invalidated().largest_tile(upto) == registry.largest_tile(upto),
    decreases upto,
{
    if upto > 0 {
        lemma_invalidated_keeps_tiles(registry, upto - 1);
    }
}

/// Consoles that have their cells keep them when they are marked dirty:
/// giving them their cells again changes nothing.
pub proof fn lemma_regridded_invalidated(registry: RegistryView, available: (u32, u32))
    ensures
        registry.regridded(available).invalidated().regridded(available) == registry.regridded(
            available,
        ).invalidated(),
{
    let marked = registry.regridded(available).invalidated();
    assert(marked.regridded(available).consoles =~= marked.consoles);
}

/// A console that was given its cells already has them: giving them again
/// changes nothing.
pub proof fn lemma_regridded_twice(registry: RegistryView, available: (u32, u32))
    ensures
        registry.regridded(available).regridded(available) == registry.regridded(available),
{
    let once = registry.regridded(available);
    assert(once.regridded(available).consoles =~= once.consoles);
}

/// A resize that lets the consoles grow gives each console as many whole
/// cells of its font as fit between the gutters, and a character grid then
/// holds one cell for each column of each row, never a part of them. This
/// holds of every console that the report does not name; a console that it
/// names has the size and the cells, glyphs or sprites that it had.
pub proof fn lemma_on_resize_regrids(
    backend: PlatformGL,
    registry: RegistryView,
    size: WindowSize,
    scale: u32,
    i: int,
)
    requires
        backend.resize_scaling,
        registry.wf(),
        0 <= i < registry.consoles.len() <= usize::MAX,
    ensures
        ({
            let scaler = resized_scaler(backend, registry, size, scale, true);
            let columns = (scaler.available_width / registry.active_tile(i).0) as u32;
            let rows = (scaler.available_height / registry.active_tile(i).1) as u32;
            let after = resized_registry(backend, registry, size, scale, true).consoles[i];
            let kept = resize_kept(backend, registry, size, scale, true);
            &&& after.console.wf()
            &&& if kept.contains(i as usize) {
                &&& after.console.size() == registry.consoles[i].console.size()
                &&& after.console.content_len() == registry.consoles[i].console.content_len()
                &&& after.console is Grid ==> after.console->Grid_0.tiles
                    == registry.consoles[i].console->Grid_0.tiles
            } else {
                &&& registry.active_tile(i).0 > 0
                &&& registry.active_tile(i).1 > 0
                &&& after.console.size() == (columns, rows)
                &&& after.console is Grid ==> after.console->Grid_0.tiles.len() == columns * rows
            }
        }),
{
    let scaler = resized_scaler(backend, registry, size, scale, true);
    let available = (scaler.available_width, scaler.available_height);
    lemma_unfit(registry, available, registry.consoles.len() as int, i);
    let sized = registry.regridded(available);
    assert(sized.invalidated().consoles[i].console == sized.consoles[i].console.invalidated());
    if registry.consoles[i].fits(registry.fonts, available) {
        lemma_regridded_cells(registry, available, i);
    }
}

/// Taking the same window size and scale factor twice leaves the scaler,
/// the screen quad, the backing surface, the consoles and the terminal as
/// the first time left them, and the second time asks no more of the
/// graphics device than to set the viewport: the window and the borders
/// are as they were, and so is the logical size.
pub proof fn lemma_on_resize_idempotent(
    bterm: BTerm,
    backend: PlatformGL,
    registry: RegistryView,
    size: WindowSize,
    scale: u32,
    send_event: bool,
)
    ensures
        ({
            let backend1 = resized_backend(backend, registry, size, scale, send_event);
            let registry1 = resized_registry(backend, registry, size, scale, send_event);
            let bterm1 = resized_bterm(bterm, backend, size, send_event);
            &&& resized_backend(backend1, registry1, size, scale, send_event) == backend1
            &&& resized_registry(backend1, registry1, size, scale, send_event) == registry1
            &&& resized_bterm(bterm1, backend1, size, send_event) == bterm1
            &&& resize_commands(backend1, backend1, size) == seq![
                RenderCommand::Viewport { width: size.width, height: size.height },
            ]
        }),
{
    let tile = registry.largest_tile(registry.consoles.len() as int);
    let taken = backend.screen_scaler.resized(size.width, size.height, scale, tile);
    let scaler1 = resized_scaler(backend, registry, size, scale, send_event);
    let backend1 = resized_backend(backend, registry, size, scale, send_event);
    let registry1 = resized_registry(backend, registry, size, scale, send_event);
    let available = (scaler1.available_width, scaler1.available_height);
    lemma_recalculated_wf(taken);
    lemma_grown_fills(taken);
    let sized = if grows(backend, send_event) {
        registry.regridded(available)
    } else {
        registry
    };
    if grows(backend, send_event) {
        lemma_regridded_keeps_tiles(registry, available, registry.consoles.len() as int);
        lemma_regridded_twice(registry, available);
        lemma_regridded_invalidated(registry, available);
    }
    lemma_invalidated_keeps_tiles(sized, sized.consoles.len() as int);
    assert(registry1.largest_tile(registry1.consoles.len() as int) == tile);
    assert(resized_scaler(backend1, registry1, size, scale, send_event) == scaler1);
    assert(resize_commands(backend1, backend1, size) =~= seq![
        RenderCommand::Viewport { width: size.width, height: size.height },
    ]);
}

} // verus!
