//! The frame compositor: what is drawn in a frame, and in which order.
//!
//! A frame passes through a fixed row of states. In each state the
//! compositor says which commands the graphics device is to carry out and
//! moves on. The consoles are drawn into a backing surface at the logical
//! size, in the order of the registry, so that a later console lies over an
//! earlier one. The backing surface is then drawn onto the screen through
//! one quad that leaves the borders free, either as it is or through the
//! scanline shader. The application's own update runs once, between the
//! clearing of the backing surface and the drawing of the consoles.

use vstd::prelude::*;
use crate::color::Rgba;
use crate::platform::{BTerm, PlatformGL};
use crate::registry::{LayerKind, Registry, RegistryView};
use crate::scaler::{scale_dimension, scaled_dimension};

verus! {

/// The states of a frame.
#[derive(Clone, Copy, Debug, PartialEq, Eq, Structural)]
pub enum FrameState {
    /// No frame is under way.
    Idle,
    /// The backing surface is bound and cleared; the application updates.
    ClearBacking,
    /// The consoles are drawn into the backing surface.
    DrawConsoles,
    /// The screen is bound and cleared.
    BlitToScreen,
    /// The scanline shader is set up.
    PostProcess,
}

/// What is missing when a frame cannot be drawn.
#[derive(Clone, Copy, Debug, PartialEq, Eq, Structural)]
pub enum ConfigError {
    /// The graphics context was not created.
    MissingContext,
    /// The backing surface was not created.
    MissingBackingBuffer,
    /// The screen quad was not built.
    MissingQuad,
    /// A console names a font that does not exist.
    MissingFont { console: usize },
    /// The texture of a font was not uploaded.
    MissingFontTexture { font: usize },
    /// A frame was to be started while another was under way.
    FrameUnderWay,
}

/// One command to the graphics device.
#[derive(Clone, Copy, Debug, PartialEq, Eq)]
pub enum RenderCommand {
    /// Create the device resources of the console with this number.
    CreateBacking { index: usize, kind: LayerKind },
    /// Replace the device resources of a console by those of another kind.
    ReplaceBacking { index: usize, kind: LayerKind },
    /// Release the device resources of a console that is gone.
    DestroyBacking { index: usize },
    /// Draw into the backing surface from now on.
    BindBacking,
    /// Draw into a rectangle of this size from the origin.
    Viewport { width: u32, height: u32 },
    /// Fill what is drawn into with opaque black.
    Clear,
    /// Run the application's update for this frame.
    HostTick,
    /// Draw a console with its font; first upload its geometry if `upload`.
    DrawConsole { index: usize, font_index: usize, upload: bool },
    /// Run the application's own drawing.
    RawCallback,
    /// Draw onto the screen from now on.
    BindDefault,
    /// Use the shader that shows the backing surface as it is.
    UsePassthroughShader,
    /// Use the scanline shader, told the size of the screen in physical
    /// pixels, whether to burn in, and the color of the burn.
    UseScanlineShader { screen_size: (u32, u32), screen_burn: bool, burn_color: Rgba },
    /// Draw the backing surface through the screen quad built with these
    /// borders.
    DrawQuad { left: u32, right: u32, top: u32, bottom: u32 },
    /// Export what is on the screen.
    Screenshot,
    /// Build the screen quad anew, with these borders.
    RebuildQuad { left: u32, right: u32, top: u32, bottom: u32 },
    /// Create the backing surface anew, at this size.
    RebuildBacking { width: u32, height: u32 },
}

/// The kinds of the console layers, in drawing order.
pub open spec fn layer_kinds(registry: RegistryView) -> Seq<LayerKind> {
    Seq::new(registry.consoles.len(), |i: int| registry.consoles[i].console.kind())
}

/// The commands that bring the device resources of the first `upto`
/// consoles in line with the registry: a resource is created where a
/// console has none, replaced where it is of another kind, and released
/// where its console is gone.
pub open spec fn reconcile_commands(
    backings: Seq<LayerKind>,
    kinds: Seq<LayerKind>,
    upto: int,
) -> Seq<RenderCommand>
    decreases upto,
{
    if upto <= 0 {
        Seq::empty()
    } else {
        let i = upto - 1;
        let before = reconcile_commands(backings, kinds, i);
        if i < backings.len() && i < kinds.len() {
            if backings[i] == kinds[i] {
                before
            } else {
                before.push(RenderCommand::ReplaceBacking { index: i as usize, kind: kinds[i] })
            }
        } else if i < kinds.len() {
            before.push(RenderCommand::CreateBacking { index: i as usize, kind: kinds[i] })
        } else if i < backings.len() {
            before.push(RenderCommand::DestroyBacking { index: i as usize })
        } else {
            before
        }
    }
}

/// The larger of two lengths.
pub open spec fn longer(a: nat, b: nat) -> nat {
    if a > b {
        a
    } else {
        b
    }
}

/// What stands in the way of drawing console `i`, if anything.
pub open spec fn font_error_at(registry: RegistryView, i: int) -> Option<ConfigError> {
    let font = registry.consoles[i].font_index;
    if font >= registry.fonts.len() {
        Some(ConfigError::MissingFont { console: i as usize })
    } else if registry.fonts[font as int].texture is None {
        Some(ConfigError::MissingFontTexture { font })
    } else {
        None
    }
}

/// What stands in the way of drawing the first `upto` consoles: the first
/// obstacle in drawing order.
pub open spec fn font_error(registry: RegistryView, upto: int) -> Option<ConfigError>
    decreases upto,
{
    if upto <= 0 {
        None
    } else {
        match font_error(registry, upto - 1) {
            Some(e) => Some(e),
            None => font_error_at(registry, upto - 1),
        }
    }
}

/// The command that draws console `i`.
pub open spec fn draw_command(registry: RegistryView, i: int) -> RenderCommand {
    RenderCommand::DrawConsole {
        index: i as usize,
        font_index: registry.consoles[i].font_index,
        upload: registry.consoles[i].console.dirty(),
    }
}

/// The commands that draw the consoles: one for each, in the order of the
/// registry.
pub open spec fn draw_commands(registry: RegistryView) -> Seq<RenderCommand> {
    Seq::new(registry.consoles.len(), |i: int| draw_command(registry, i))
}

/// The commands that end a frame: the backing surface is drawn through the
/// screen quad, and the screen exported if that was asked for.
pub open spec fn present_commands(backend: PlatformGL) -> Seq<RenderCommand> {
    let quad = backend.quad_vao->0;
    let draw = seq![
        RenderCommand::DrawQuad { left: quad.0, right: quad.1, top: quad.2, bottom: quad.3 },
    ];
    if backend.request_screenshot is Some {
        draw.push(RenderCommand::Screenshot)
    } else {
        draw
    }
}

/// What a step of the compositor leads to.
pub ghost struct StepOutcome {
    pub state: FrameState,
    pub backings: Seq<LayerKind>,
    pub backend: PlatformGL,
    pub registry: RegistryView,
    pub commands: Seq<RenderCommand>,
}

/// The backend at the end of a frame: a screenshot that was asked for has
/// been taken.
pub open spec fn presented(backend: PlatformGL) -> PlatformGL {
    PlatformGL { request_screenshot: None, ..backend }
}

/// What the compositor does in one step: where it goes from `state`, and
/// which commands it gives. A frame starts only if the context, the backing
/// surface and the screen quad exist. While nothing can be shown, a frame
/// consists of the application's update alone. The consoles are drawn only
/// if each has its font and the font its texture; before they are drawn,
/// the device resources are brought in line with them once more, so that a
/// console that the update added or replaced is drawn with a resource of
/// its kind.
pub open spec fn frame_step(
    state: FrameState,
    backings: Seq<LayerKind>,
    backend: PlatformGL,
    registry: RegistryView,
    bterm: BTerm,
) -> Result<StepOutcome, ConfigError> {
    match state {
        FrameState::Idle => {
            if !backend.gl {
                Err(ConfigError::MissingContext)
            } else if backend.backing_buffer is None {
                Err(ConfigError::MissingBackingBuffer)
            } else if backend.quad_vao is None {
                Err(ConfigError::MissingQuad)
            } else if backend.screen_scaler.spec_is_degenerate() {
                Ok(
                    StepOutcome {
                        state: FrameState::Idle,
                        backings,
                        backend,
                        registry,
                        commands: seq![RenderCommand::HostTick],
                    },
                )
            } else {
                let kinds = layer_kinds(registry);
                Ok(
                    StepOutcome {
                        state: FrameState::ClearBacking,
                        backings: kinds,
                        backend,
                        registry,
                        commands: reconcile_commands(
                            backings,
                            kinds,
                            longer(backings.len(), kinds.len()) as int,
                        ) + seq![
                            RenderCommand::BindBacking,
                            RenderCommand::Viewport {
                                width: backend.screen_scaler.logical_size.0,
                                height: backend.screen_scaler.logical_size.1,
                            },
                            RenderCommand::Clear,
                            RenderCommand::HostTick,
                        ],
                    },
                )
            }
        },
        FrameState::ClearBacking => {
            match font_error(registry, registry.consoles.len() as int) {
                Some(e) => Err(e),
                None => {
                    let kinds = layer_kinds(registry);
                    let draws = reconcile_commands(
                        backings,
                        kinds,
                        longer(backings.len(), kinds.len()) as int,
                    ) + draw_commands(registry);
                    Ok(
                        StepOutcome {
                            state: FrameState::DrawConsoles,
                            backings: kinds,
                            backend,
                            registry: registry.rebuilt(),
                            commands: if backend.gl_callback {
                                draws.push(RenderCommand::RawCallback)
                            } else {
                                draws
                            },
                        },
                    )
                },
            }
        },
        FrameState::DrawConsoles => Ok(
            StepOutcome {
                state: FrameState::BlitToScreen,
                backings,
                backend,
                registry,
                commands: seq![
                    RenderCommand::BindDefault,
                    RenderCommand::Viewport {
                        width: backend.screen_scaler.physical_size.0,
                        height: backend.screen_scaler.physical_size.1,
                    },
                    RenderCommand::Clear,
                ],
            },
        ),
        FrameState::BlitToScreen => {
            if backend.quad_vao is None {
                Err(ConfigError::MissingQuad)
            } else if bterm.post_scanlines {
                Ok(
                    StepOutcome {
                        state: FrameState::PostProcess,
                        backings,
                        backend,
                        registry,
                        commands: seq![
                            RenderCommand::UseScanlineShader {
                                screen_size: (
                                    scaled_dimension(
                                        bterm.width_pixels,
                                        backend.screen_scaler.scale_factor,
                                    ),
                                    scaled_dimension(
                                        bterm.height_pixels,
                                        backend.screen_scaler.scale_factor,
                                    ),
                                ),
                                screen_burn: bterm.post_screenburn,
                                burn_color: bterm.screen_burn_color,
                            },
                        ],
                    },
                )
            } else {
                Ok(
                    StepOutcome {
                        state: FrameState::Idle,
                        backings,
                        backend: presented(backend),
                        registry,
                        commands: seq![RenderCommand::UsePassthroughShader] + present_commands(
                            backend,
                        ),
                    },
                )
            }
        },
        FrameState::PostProcess => {
            if backend.quad_vao is None {
                Err(ConfigError::MissingQuad)
            } else {
                Ok(
                    StepOutcome {
                        state: FrameState::Idle,
                        backings,
                        backend: presented(backend),
                        registry,
                        commands: present_commands(backend),
                    },
                )
            }
        },
    }
}

/// What the rest of a frame does once the backing surface is cleared and
/// the application has updated: the device resources are brought in line
/// with the consoles; the consoles are drawn in the order of the registry,
/// each from its rebuilt geometry; the screen is bound and
/// cleared; and the backing surface is drawn through the screen quad, with
/// the scanline shader or as it is. The commands are those of the steps one
/// after the other. Without the screen quad, or if a console lacks its font
/// or the font its texture, nothing of this is done.
pub open spec fn frame_end(
    backings: Seq<LayerKind>,
    backend: PlatformGL,
    registry: RegistryView,
    bterm: BTerm,
) -> Result<StepOutcome, ConfigError> {
    if backend.quad_vao is None {
        Err(ConfigError::MissingQuad)
    } else {
        match frame_step(FrameState::ClearBacking, backings, backend, registry, bterm) {
            Err(e) => Err(e),
            Ok(drawn) => {
                let bound = frame_step(
                    FrameState::DrawConsoles,
                    drawn.backings,
                    drawn.backend,
                    drawn.registry,
                    bterm,
                )->Ok_0;
                let blit = frame_step(
                    FrameState::BlitToScreen,
                    bound.backings,
                    bound.backend,
                    bound.registry,
                    bterm,
                )->Ok_0;
                if blit.state == FrameState::PostProcess {
                    let shown = frame_step(
                        FrameState::PostProcess,
                        blit.backings,
                        blit.backend,
                        blit.registry,
                        bterm,
                    )->Ok_0;
                    Ok(
                        StepOutcome {
                            commands: drawn.commands + bound.commands + blit.commands
                                + shown.commands,
                            ..shown
                        },
                    )
                } else {
                    Ok(
                        StepOutcome {
                            commands: drawn.commands + bound.commands + blit.commands,
                            ..blit
                        },
                    )
                }
            },
        }
    }
}

/// The compositor: the state of the frame under way, and the kinds of the
/// device resources that exist for the consoles.
pub struct FrameCompositor {
    pub state: FrameState,
    pub backings: Vec<LayerKind>,
}

impl FrameCompositor {
    /// A compositor between frames, with no device resources yet.
    pub fn new() -> (compositor: FrameCompositor)
        ensures
            compositor.state == FrameState::Idle,
            compositor.backings@ == Seq::<LayerKind>::empty(),
    {
        FrameCompositor { state: FrameState::Idle, backings: Vec::new() }
    }

    /// Takes a frame whose backing surface is cleared to its end, step by
    /// step, and returns the commands of all the steps. If something needed
    /// is missing, the frame is given up: the error says what, no command
    /// is returned, and but for the state nothing is changed.
    pub(crate) fn finish_frame(
        &mut self,
        backend: &mut PlatformGL,
        registry: &mut Registry,
        bterm: &BTerm,
    ) -> (r: Result<Vec<RenderCommand>, ConfigError>)
        requires
            old(self).state == FrameState::ClearBacking,
        ensures
            final(self).state == FrameState::Idle,
            match frame_end(old(self).backings@, *old(backend), old(registry)@, *bterm) {
                Ok(outcome) => {
                    &&& r is Ok
                    &&& r->Ok_0@ == outcome.commands
                    &&& outcome.state == FrameState::Idle
                    &&& final(self).backings@ == outcome.backings
                    &&& *final(backend) == outcome.backend
                    &&& final(registry)@ == outcome.registry
                },
                Err(e) => {
                    &&& r == Err::<Vec<RenderCommand>, ConfigError>(e)
                    &&& final(self).backings@ == old(self).backings@
                    &&& *final(backend) == *old(backend)
                    &&& final(registry)@ == old(registry)@
                },
            },
    {
        if backend.quad_vao.is_none() {
            self.state = FrameState::Idle;
            return Err(ConfigError::MissingQuad);
        }
        let mut commands = match self.step(backend, registry, bterm) {
            Ok(commands) => commands,
            Err(e) => {
                self.state = FrameState::Idle;
                return Err(e);
            },
        };
        let ghost drawn = commands@;
        let mut bound = match self.step(backend, registry, bterm) {
            Ok(commands) => commands,
            Err(e) => {
                self.state = FrameState::Idle;
                return Err(e);
            },
        };
        let ghost bound_commands = bound@;
        commands.append(&mut bound);
        let mut blit = match self.step(backend, registry, bterm) {
            Ok(commands) => commands,
            Err(e) => {
                self.state = FrameState::Idle;
                return Err(e);
            },
        };
        let ghost blit_commands = blit@;
        commands.append(&mut blit);
        match self.state {
            FrameState::PostProcess => {
                let mut shown = match self.step(backend, registry, bterm) {
                    Ok(commands) => commands,
                    Err(e) => {
                        self.state = FrameState::Idle;
                        return Err(e);
                    },
                };
                commands.append(&mut shown);
            },
            _ => {},
        }
        Ok(commands)
    }

    /// Takes the frame one state further and returns the commands to carry
    /// out. The step that ends the frame forgets the screenshot that was
    /// asked for. If something needed is missing, the error says what, and
    /// nothing is changed.
    pub fn step(
        &mut self,
        backend: &mut PlatformGL,
        registry: &mut Registry,
        bterm: &BTerm,
    ) -> (r: Result<Vec<RenderCommand>, ConfigError>)
        ensures
            match frame_step(
                old(self).state,
                old(self).backings@,
                *old(backend),
                old(registry)@,
                *bterm,
            ) {
                Ok(outcome) => {
                    &&& r is Ok
                    &&& r->Ok_0@ == outcome.commands
                    &&& final(self).state == outcome.state
                    &&& final(self).backings@ == outcome.backings
                    &&& *final(backend) == outcome.backend
                    &&& final(registry)@ == outcome.registry
                },
                Err(e) => {
                    &&& r == Err::<Vec<RenderCommand>, ConfigError>(e)
                    &&& *final(self) == *old(self)
                    &&& *final(backend) == *old(backend)
                    &&& final(registry)@ == old(registry)@
                },
            },
    {
        match self.state {
            FrameState::Idle => {
                if !backend.gl {
                    return Err(ConfigError::MissingContext);
                }
                if backend.backing_buffer.is_none() {
                    return Err(ConfigError::MissingBackingBuffer);
                }
                if backend.quad_vao.is_none() {
                    return Err(ConfigError::MissingQuad);
                }
                let mut commands: Vec<RenderCommand> = Vec::new();
                if backend.screen_scaler.is_degenerate() {
                    commands.push(RenderCommand::HostTick);
                    assert(commands@ =~= seq![RenderCommand::HostTick]);
                    return Ok(commands);
                }
                let kinds = kinds_of(registry);
                reconcile(&self.backings, &kinds, &mut commands);
                let ghost reconciled = commands@;
                commands.push(RenderCommand::BindBacking);
                commands.push(
                    RenderCommand::Viewport {
                        width: backend.screen_scaler.logical_size.0,
                        height: backend.screen_scaler.logical_size.1,
                    },
                );
                commands.push(RenderCommand::Clear);
                commands.push(RenderCommand::HostTick);
                assert(commands@ =~= reconciled + seq![
                    RenderCommand::BindBacking,
                    RenderCommand::Viewport {
                        width: backend.screen_scaler.logical_size.0,
                        height: backend.screen_scaler.logical_size.1,
                    },
                    RenderCommand::Clear,
                    RenderCommand::HostTick,
                ]);
                self.backings = kinds;
                self.state = FrameState::ClearBacking;
                Ok(commands)
            },
            FrameState::ClearBacking => {
                match check_fonts(registry) {
                    Some(e) => {
                        return Err(e);
                    },
                    None => {},
                }
                let kinds = kinds_of(registry);
                let mut commands: Vec<RenderCommand> = Vec::new();
                reconcile(&self.backings, &kinds, &mut commands);
                let ghost reconciled = commands@;
                let mut draws: Vec<RenderCommand> = Vec::new();
                let mut i: usize = 0;
                while i < registry.consoles.len()
                    invariant
                        i <= registry.consoles.len(),
                        *registry == *old(registry),
                        *backend == *old(backend),
                        draws@.len() == i,
                        forall|k: int|
                            0 <= k < i ==> #[trigger] draws@[k] == draw_command(registry@, k),
                    decreases registry.consoles.len() - i,
                {
                    let entry = &registry.consoles[i];
                    draws.push(
                        RenderCommand::DrawConsole {
                            index: i,
                            font_index: entry.font_index,
                            upload: entry.console.is_dirty(),
                        },
                    );
                    i += 1;
                }
                assert(draws@ =~= draw_commands(registry@));
                commands.append(&mut draws);
                assert(commands@ =~= reconciled + draw_commands(registry@));
                if backend.gl_callback {
                    commands.push(RenderCommand::RawCallback);
                }
                registry.rebuild_consoles();
                self.backings = kinds;
                self.state = FrameState::DrawConsoles;
                Ok(commands)
            },
            FrameState::DrawConsoles => {
                let mut commands: Vec<RenderCommand> = Vec::new();
                commands.push(RenderCommand::BindDefault);
                commands.push(
                    RenderCommand::Viewport {
                        width: backend.screen_scaler.physical_size.0,
                        height: backend.screen_scaler.physical_size.1,
                    },
                );
                commands.push(RenderCommand::Clear);
                assert(commands@ =~= seq![
                    RenderCommand::BindDefault,
                    RenderCommand::Viewport {
                        width: backend.screen_scaler.physical_size.0,
                        height: backend.screen_scaler.physical_size.1,
                    },
                    RenderCommand::Clear,
                ]);
                self.state = FrameState::BlitToScreen;
                Ok(commands)
            },
            FrameState::BlitToScreen => {
                if backend.quad_vao.is_none() {
                    return Err(ConfigError::MissingQuad);
                }
                let mut commands: Vec<RenderCommand> = Vec::new();
                if bterm.post_scanlines {
                    let scale = backend.screen_scaler.scale_factor;
                    commands.push(
                        RenderCommand::UseScanlineShader {
                            screen_size: (
                                scale_dimension(bterm.width_pixels, scale),
                                scale_dimension(bterm.height_pixels, scale),
                            ),
                            screen_burn: bterm.post_screenburn,
                            burn_color: bterm.screen_burn_color,
                        },
                    );
                    assert(commands@ =~= seq![
                        RenderCommand::UseScanlineShader {
                            screen_size: (
                                scaled_dimension(bterm.width_pixels, scale),
                                scaled_dimension(bterm.height_pixels, scale),
                            ),
                            screen_burn: bterm.post_screenburn,
                            burn_color: bterm.screen_burn_color,
                        },
                    ]);
                    self.state = FrameState::PostProcess;
                } else {
                    commands.push(RenderCommand::UsePassthroughShader);
                    present(backend, &mut commands);
                    backend.request_screenshot = None;
                    self.state = FrameState::Idle;
                }
                Ok(commands)
            },
            FrameState::PostProcess => {
                if backend.quad_vao.is_none() {
                    return Err(ConfigError::MissingQuad);
                }
                let mut commands: Vec<RenderCommand> = Vec::new();
                present(backend, &mut commands);
                assert(commands@ =~= present_commands(*backend));
                backend.request_screenshot = None;
                self.state = FrameState::Idle;
                Ok(commands)
            },
        }
    }
}

/// Adds the commands that end a frame.
fn present(backend: &PlatformGL, commands: &mut Vec<RenderCommand>)
    requires
        backend.quad_vao is Some,
    ensures
        final(commands)@ == old(commands)@ + present_commands(*backend),
{
    let quad = match backend.quad_vao {
        Some(quad) => quad,
        None => (0, 0, 0, 0),
    };
    commands.push(
        RenderCommand::DrawQuad { left: quad.0, right: quad.1, top: quad.2, bottom: quad.3 },
    );
    if backend.request_screenshot.is_some() {
        commands.push(RenderCommand::Screenshot);
    }
    assert(commands@ =~= old(commands)@ + present_commands(*backend));
}

/// Lists the kinds of the console layers.
fn kinds_of(registry: &Registry) -> (kinds: Vec<LayerKind>)
    ensures
        kinds@ == layer_kinds(registry@),
{
    let mut kinds: Vec<LayerKind> = Vec::new();
    let mut i: usize = 0;
    while i < registry.consoles.len()
        invariant
            i <= registry.consoles.len(),
            kinds@.len() == i,
            forall|k: int| 0 <= k < i ==> #[trigger] kinds@[k] == registry@.consoles[k].console.kind(),
        decreases registry.consoles.len() - i,
    {
        kinds.push(registry.consoles[i].console.kind());
        i += 1;
    }
    assert(kinds@ =~= layer_kinds(registry@));
    kinds
}

/// Adds the commands that bring the device resources in line with the
/// registry.
fn reconcile(backings: &Vec<LayerKind>, kinds: &Vec<LayerKind>, commands: &mut Vec<RenderCommand>)
    ensures
        final(commands)@ == old(commands)@ + reconcile_commands(
            backings@,
            kinds@,
            longer(backings@.len(), kinds@.len()) as int,
        ),
{
    let total: usize = if backings.len() > kinds.len() {
        backings.len()
    } else {
        kinds.len()
    };
    let mut i: usize = 0;
    assert(commands@ =~= old(commands)@ + reconcile_commands(backings@, kinds@, 0));
    while i < total
        invariant
            i <= total,
            total == longer(backings@.len(), kinds@.len()),
            commands@ == old(commands)@ + reconcile_commands(backings@, kinds@, i as int),
        decreases total - i,
    {
        let ghost before = reconcile_commands(backings@, kinds@, i as int);
        if i < backings.len() && i < kinds.len() {
            if backings[i] != kinds[i] {
                commands.push(RenderCommand::ReplaceBacking { index: i, kind: kinds[i] });
            }
        } else if i < kinds.len() {
            commands.push(RenderCommand::CreateBacking { index: i, kind: kinds[i] });
        } else if i < backings.len() {
            commands.push(RenderCommand::DestroyBacking { index: i });
        }
        i += 1;
        assert(commands@ =~= old(commands)@ + reconcile_commands(backings@, kinds@, i as int));
    }
}

/// Finds what stands in the way of drawing the consoles.
fn check_fonts(registry: &Registry) -> (r: Option<ConfigError>)
    ensures
        r == font_error(registry@, registry@.consoles.len() as int),
{
    let mut i: usize = 0;
    while i < registry.consoles.len()
        invariant
            i <= registry.consoles.len(),
            font_error(registry@, i as int) is None,
        decreases registry.consoles.len() - i,
    {
        let font = registry.consoles[i].font_index;
        if font >= registry.fonts.len() {
            proof {
                lemma_font_error_stays(registry@, i + 1, registry@.consoles.len() as int);
            }
            return Some(ConfigError::MissingFont { console: i });
        }
        if registry.fonts[font].texture.is_none() {
            proof {
                lemma_font_error_stays(registry@, i + 1, registry@.consoles.len() as int);
            }
            return Some(ConfigError::MissingFontTexture { font });
        }
        i += 1;
    }
    None
}

/// The first obstacle among the consoles stays the first when more
/// consoles are looked at.
pub proof fn lemma_font_error_stays(registry: RegistryView, found: int, upto: int)
    requires
        0 <= found <= upto,
        font_error(registry, found) is Some,
    ensures
        font_error(registry, upto) == font_error(registry, found),
    decreases upto - found,
{
    if found < upto {
        lemma_font_error_stays(registry, found, upto - 1);
    }
}

/// How far a state is from the end of its frame.
pub open spec fn steps_left(state: FrameState) -> nat {
    match state {
        FrameState::Idle => 0,
        FrameState::PostProcess => 1,
        FrameState::BlitToScreen => 2,
        FrameState::DrawConsoles => 3,
        FrameState::ClearBacking => 4,
    }
}

/// A frame moves forward only: every step that succeeds inside a frame
/// brings it nearer to its end, so a frame that was started is over after
/// at most four more steps. A step between frames either starts a frame or,
/// while nothing can be shown, stays between frames.
pub proof fn lemma_frame_moves_forward(
    state: FrameState,
    backings: Seq<LayerKind>,
    backend: PlatformGL,
    registry: RegistryView,
    bterm: BTerm,
)
    ensures
        match frame_step(state, backings, backend, registry, bterm) {
            Ok(outcome) => if state == FrameState::Idle {
                outcome.state == FrameState::ClearBacking || outcome.state == FrameState::Idle
            } else {
                steps_left(outcome.state) < steps_left(state)
            },
            Err(_) => true,
        },
{
}

/// Where every console has the device resource of its kind, nothing is
/// created, replaced or released.
pub proof fn lemma_reconcile_nothing(kinds: Seq<LayerKind>, upto: int)
    requires
        upto <= kinds.len(),
    ensures
        reconcile_commands(kinds, kinds, upto) == Seq::<RenderCommand>::empty(),
    decreases upto,
{
    if upto > 0 {
        lemma_reconcile_nothing(kinds, upto - 1);
    }
}

/// The commands that reconcile the device resources only create, replace
/// and release.
pub proof fn lemma_reconcile_commands(backings: Seq<LayerKind>, kinds: Seq<LayerKind>, upto: int)
    ensures
        forall|k: int|
            0 <= k < reconcile_commands(backings, kinds, upto).len() ==> {
                let command = #[trigger] reconcile_commands(backings, kinds, upto)[k];
                command is CreateBacking || command is ReplaceBacking || command is DestroyBacking
            },
    decreases upto,
{
    if upto > 0 {
        lemma_reconcile_commands(backings, kinds, upto - 1);
    }
}

/// The application's update runs once in a frame: the step that starts a
/// frame ends with it, after the backing surface was cleared, and no other
/// command of the frame is an update.
pub proof fn lemma_host_ticks_once(
    state: FrameState,
    backings: Seq<LayerKind>,
    backend: PlatformGL,
    registry: RegistryView,
    bterm: BTerm,
)
    ensures
        match frame_step(state, backings, backend, registry, bterm) {
            Ok(outcome) => {
                let commands = outcome.commands;
                &&& state == FrameState::Idle ==> commands.len() >= 1 && commands.last()
                    == RenderCommand::HostTick
                &&& state == FrameState::Idle && outcome.state == FrameState::ClearBacking
                    ==> commands.len() >= 4 && commands[commands.len() - 2]
                    == RenderCommand::Clear && commands[commands.len() - 4]
                    == RenderCommand::BindBacking
                &&& forall|k: int|
                    0 <= k < commands.len() && #[trigger] commands[k] == RenderCommand::HostTick
                        ==> state == FrameState::Idle && k == commands.len() - 1
            },
            Err(_) => true,
        },
{
    let kinds = layer_kinds(registry);
    lemma_reconcile_commands(backings, kinds, longer(backings.len(), kinds.len()) as int);
}

/// No console is drawn from a geometry that is out of date or in part:
/// when the step that draws the consoles succeeds, every console is clean
/// and has one quad for each of its cells, glyphs or sprites.
pub proof fn lemma_consoles_are_drawn_whole(
    backings: Seq<LayerKind>,
    backend: PlatformGL,
    registry: RegistryView,
    bterm: BTerm,
)
    requires
        registry.wf(),
        frame_step(FrameState::ClearBacking, backings, backend, registry, bterm) is Ok,
    ensures
        ({
            let drawn = frame_step(
                FrameState::ClearBacking,
                backings,
                backend,
                registry,
                bterm,
            )->Ok_0.registry;
            &&& drawn.consoles.len() == registry.consoles.len()
            &&& forall|i: int|
                0 <= i < drawn.consoles.len() ==> !(#[trigger] drawn.consoles[i]).console.dirty()
                    && drawn.consoles[i].console.geometry_len()
                    == drawn.consoles[i].console.content_len()
        }),
{
    let drawn = registry.rebuilt();
    assert forall|i: int| 0 <= i < drawn.consoles.len() implies !(#[trigger] drawn.consoles[i]).console.dirty()
        && drawn.consoles[i].console.geometry_len() == drawn.consoles[i].console.content_len() by {
        lemma_font_error_covers(registry, i, registry.consoles.len() as int);
        let entry = registry.consoles[i];
        crate::registry::lemma_layer_rebuild_idempotent(
            entry.console,
            registry.fonts[entry.font_index as int].tile_size,
        );
    }
}

/// Where nothing stands in the way of drawing the consoles, each of them
/// has its font, and the font its texture.
pub proof fn lemma_font_error_covers(registry: RegistryView, i: int, upto: int)
    requires
        0 <= i < upto,
        font_error(registry, upto) is None,
    ensures
        font_error_at(registry, i) is None,
    decreases upto,
{
    if i < upto - 1 {
        lemma_font_error_covers(registry, i, upto - 1);
    }
}

/// The consoles are drawn in the order of the registry, each once: the
/// command at place `i` draws console `i`. So of two consoles the one
/// registered later is drawn later and lies over the other.
pub proof fn lemma_draw_order(registry: RegistryView)
    ensures
        draw_commands(registry).len() == registry.consoles.len(),
        forall|i: int|
            0 <= i < registry.consoles.len() ==> #[trigger] draw_commands(registry)[i]
                == (RenderCommand::DrawConsole {
                index: i as usize,
                font_index: registry.consoles[i].font_index,
                upload: registry.consoles[i].console.dirty(),
            }),
{
}

} // verus!
