//! A frame from its start to its end.
//!
//! Before a frame, the terminal is handed the input since the last frame,
//! and a window size that was reported is taken over. The frame itself
//! checks that the device has what it needs, counts the frame, binds and
//! clears the backing surface, runs the application's update once, draws
//! the consoles in the order of the registry, and shows the backing surface
//! on the screen. After the frame the input is forgotten.
//!
//! The device is not touched here. A frame gives the commands that the
//! device is to carry out, in order, once the frame was gone through; a
//! frame that fails gives none, so that nothing of it is drawn.

use vstd::prelude::*;
use crate::compositor::{
    draw_commands,
    font_error,
    frame_end,
    frame_step,
    layer_kinds,
    lemma_reconcile_commands,
    longer,
    present_commands,
    presented,
    reconcile_commands,
    ConfigError,
    FrameCompositor,
    FrameState,
    RenderCommand,
};
use crate::mailbox::{clear_input_state, EventMailbox};
use crate::platform::{BTerm, PlatformGL};
use crate::registry::{LayerKind, Registry, RegistryView};
use crate::resize::{
    on_resize,
    resize_commands,
    resized_backend,
    resized_bterm,
    resized_registry,
    BEvent,
    ResizeReport,
    WindowSize,
};
use crate::scaler::scaled_dimension;
use crate::timing::{elapsed_since, FrameClock};

verus! {

/// What an application implements: its update, which is run once in every
/// frame and may change the terminal and the consoles as it likes.
pub trait GameState: Sized {
    /// Whether one update may turn this application into `after`, the
    /// terminal `ctx` that it is handed into `ctx_after`, and the consoles
    /// `registry` into `registry_after`. An application says here as much
    /// of its update as it likes; one that says nothing promises nothing.
    open spec fn updates(
        self,
        ctx: BTerm,
        registry: RegistryView,
        after: Self,
        ctx_after: BTerm,
        registry_after: RegistryView,
    ) -> bool {
        true
    }

    /// Updates the application for one frame.
    fn tick(&mut self, ctx: &mut BTerm, registry: &mut Registry)
        ensures
            old(self).updates(
                *old(ctx),
                old(registry)@,
                *final(self),
                *final(ctx),
                final(registry)@,
            ),
    ;
}

/// The window size that a frame takes over, if one was reported.
pub open spec fn pending_size(mailbox: EventMailbox) -> Option<WindowSize> {
    match mailbox.size {
        Some(s) => Some(WindowSize { width: s.0, height: s.1 }),
        None => None,
    }
}

/// The backend before a frame, after a reported window size was taken over
/// at the scale factor in force.
pub open spec fn started_backend(mailbox: EventMailbox, backend: PlatformGL, registry: RegistryView) -> PlatformGL {
    match pending_size(mailbox) {
        Some(size) => resized_backend(
            backend,
            registry,
            size,
            backend.screen_scaler.scale_factor,
            true,
        ),
        None => backend,
    }
}

/// The registry before a frame, after a reported window size was taken
/// over.
pub open spec fn started_registry(mailbox: EventMailbox, backend: PlatformGL, registry: RegistryView) -> RegistryView {
    match pending_size(mailbox) {
        Some(size) => resized_registry(
            backend,
            registry,
            size,
            backend.screen_scaler.scale_factor,
            true,
        ),
        None => registry,
    }
}

/// The terminal before a frame: handed the input, and resized.
pub open spec fn started_bterm(mailbox: EventMailbox, bterm: BTerm, backend: PlatformGL) -> BTerm {
    let handed = mailbox.delivered(bterm, backend.screen_scaler.scale_factor);
    match pending_size(mailbox) {
        Some(size) => resized_bterm(handed, backend, size, true),
        None => handed,
    }
}

/// Makes ready for a frame. The terminal is handed the input since the
/// last frame, and a window size that was reported is taken over, at the
/// scale factor in force; what that asks of the platform is returned. A
/// window size cannot be taken over without a graphics context: the error
/// says so, and nothing is changed.
pub fn begin_frame(
    mailbox: &mut EventMailbox,
    bterm: &mut BTerm,
    backend: &mut PlatformGL,
    registry: &mut Registry,
) -> (r: Result<Option<ResizeReport>, ConfigError>)
    ensures
        if old(mailbox).size is Some && !old(backend).gl {
            &&& r is Err
            &&& r->Err_0 == ConfigError::MissingContext
            &&& *final(mailbox) == *old(mailbox)
            &&& *final(bterm) == *old(bterm)
            &&& *final(backend) == *old(backend)
            &&& final(registry)@ == old(registry)@
        } else {
            let backend1 = started_backend(*old(mailbox), *old(backend), old(registry)@);
            &&& r is Ok
            &&& *final(mailbox) == (EventMailbox { size: None, ..*old(mailbox) })
            &&& *final(bterm) == started_bterm(*old(mailbox), *old(bterm), *old(backend))
            &&& *final(backend) == backend1
            &&& final(registry)@ == started_registry(
                *old(mailbox),
                *old(backend),
                old(registry)@,
            )
            &&& match pending_size(*old(mailbox)) {
                Some(size) => r->Ok_0 is Some && r->Ok_0->0.commands@ == resize_commands(
                    *old(backend),
                    backend1,
                    size,
                ) && r->Ok_0->0.event == (BEvent::Resized {
                    new_size: (
                        backend1.screen_scaler.available_width,
                        backend1.screen_scaler.available_height,
                    ),
                    dpi_scale_factor: old(backend).screen_scaler.scale_factor,
                }),
                None => r->Ok_0 is None,
            }
        },
{
    if mailbox.size.is_some() && !backend.gl {
        return Err(ConfigError::MissingContext);
    }
    let scale = backend.screen_scaler.scale_factor;
    mailbox.deliver(bterm, scale);
    match mailbox.take_resize() {
        Some(size) => {
            match on_resize(bterm, backend, registry, size, scale, true) {
                Ok(report) => Ok(Some(report)),
                Err(e) => Err(e),
            }
        },
        None => Ok(None),
    }
}

/// All that a frame works on, as a mathematical value.
pub ghost struct TerminalView {
    pub bterm: BTerm,
    pub clock: FrameClock,
    pub state: FrameState,
    pub backings: Seq<LayerKind>,
    pub backend: PlatformGL,
    pub registry: RegistryView,
}

/// What a frame leads to: the terminal afterwards, and the commands for
/// the device or what was missing.
pub ghost struct FrameResult {
    pub after: TerminalView,
    pub commands: Result<Seq<RenderCommand>, ConfigError>,
}

/// What a frame does that starts `now_seconds` whole seconds and `now_ms`
/// whole milliseconds after the clock's origin, where the application's
/// update leaves the terminal as `updated_bterm` and the consoles as
/// `updated_registry`.
///
/// No frame starts while another is under way, and none without the
/// graphics context, the backing surface and the screen quad: the error
/// says what is missing, and nothing is changed. Else the frame is counted,
/// the backing surface is bound and cleared, and the update runs. While
/// nothing can be shown, that is the whole frame. Else the rest of the
/// frame follows; if a console then lacks its font, or the font its
/// texture, the frame is given up and gives no commands, and the device
/// resources count as what they were before the frame.
pub open spec fn frame_result(
    before: TerminalView,
    now_seconds: u64,
    now_ms: u128,
    updated_bterm: BTerm,
    updated_registry: RegistryView,
) -> FrameResult {
    if before.state != FrameState::Idle {
        FrameResult { after: before, commands: Err(ConfigError::FrameUnderWay) }
    } else {
        match frame_step(
            FrameState::Idle,
            before.backings,
            before.backend,
            before.registry,
            before.bterm,
        ) {
            Err(e) => FrameResult { after: before, commands: Err(e) },
            Ok(start) => {
                let clock = before.clock.ticked(now_seconds, now_ms);
                if start.state == FrameState::Idle {
                    FrameResult {
                        after: TerminalView {
                            bterm: updated_bterm,
                            clock,
                            registry: updated_registry,
                            ..before
                        },
                        commands: Ok(start.commands),
                    }
                } else {
                    match frame_end(start.backings, start.backend, updated_registry, updated_bterm) {
                        Err(e) => FrameResult {
                            after: TerminalView {
                                bterm: updated_bterm,
                                clock,
                                registry: updated_registry,
                                ..before
                            },
                            commands: Err(e),
                        },
                        Ok(end) => FrameResult {
                            after: TerminalView {
                                bterm: updated_bterm,
                                clock,
                                state: FrameState::Idle,
                                backings: end.backings,
                                backend: end.backend,
                                registry: end.registry,
                            },
                            commands: Ok(start.commands + end.commands),
                        },
                    }
                }
            },
        }
    }
}

/// Whether a frame starts, and the application's update runs: no other
/// frame is under way, and the graphics context, the backing surface and
/// the screen quad exist.
pub open spec fn frame_starts(before: TerminalView) -> bool {
    &&& before.state == FrameState::Idle
    &&& before.backend.gl
    &&& before.backend.backing_buffer is Some
    &&& before.backend.quad_vao is Some
}

/// What the application's update does in a frame. In a frame that starts,
/// it runs once: it is handed the caller's terminal, with the timing of
/// this frame, and the consoles as they were, and leaves the application
/// as `after`, the terminal as `updated_bterm` and the consoles as
/// `updated_registry`. In a frame that does not start it does not run.
pub open spec fn update_ran<GS: GameState>(
    before: TerminalView,
    now_seconds: u64,
    now_ms: u128,
    gamestate: GS,
    after: GS,
    updated_bterm: BTerm,
    updated_registry: RegistryView,
) -> bool {
    if frame_starts(before) {
        gamestate.updates(
            before.clock.timed(before.bterm, now_seconds, now_ms),
            before.registry,
            after,
            updated_bterm,
            updated_registry,
        )
    } else {
        after == gamestate
    }
}

/// Whether a frame that starts at the given time takes `before` and the
/// application `gamestate` to `after` and `gamestate_after`, and gives
/// `commands`: the update did what it may do, and the frame is what
/// `frame_result` says for what the update left behind.
pub open spec fn is_frame<GS: GameState>(
    before: TerminalView,
    gamestate: GS,
    now_seconds: u64,
    now_ms: u128,
    after: TerminalView,
    gamestate_after: GS,
    commands: Result<Seq<RenderCommand>, ConfigError>,
) -> bool {
    exists|updated_bterm: BTerm, updated_registry: RegistryView|
        {
            &&& update_ran(
                before,
                now_seconds,
                now_ms,
                gamestate,
                gamestate_after,
                updated_bterm,
                updated_registry,
            )
            &&& #[trigger] frame_result(
                before,
                now_seconds,
                now_ms,
                updated_bterm,
                updated_registry,
            ) == (FrameResult { after, commands })
        }
}

/// What a frame works on, taken together.
pub open spec fn terminal_view(
    bterm: BTerm,
    clock: FrameClock,
    compositor: FrameCompositor,
    backend: PlatformGL,
    registry: RegistryView,
) -> TerminalView {
    TerminalView {
        bterm,
        clock,
        state: compositor.state,
        backings: compositor.backings@,
        backend,
        registry,
    }
}

/// The commands of a frame, or what was missing, as a mathematical value.
pub open spec fn commands_view(r: Result<Vec<RenderCommand>, ConfigError>) -> Result<
    Seq<RenderCommand>,
    ConfigError,
> {
    match r {
        Ok(commands) => Ok(commands@),
        Err(e) => Err(e),
    }
}

/// Copies a list of layer kinds.
fn copy_kinds(kinds: &Vec<LayerKind>) -> (copy: Vec<LayerKind>)
    ensures
        copy@ == kinds@,
{
    let mut copy: Vec<LayerKind> = Vec::new();
    let mut i: usize = 0;
    while i < kinds.len()
        invariant
            i <= kinds.len(),
            copy@ == kinds@.take(i as int),
        decreases kinds.len() - i,
    {
        copy.push(kinds[i]);
        i += 1;
        assert(copy@ =~= kinds@.take(i as int));
    }
    assert(copy@ =~= kinds@);
    copy
}

/// Runs a frame that starts `now_seconds` whole seconds and `now_ms` whole
/// milliseconds after the clock's origin. The application's update is
/// called once, with the caller's terminal and consoles, after the frame
/// was counted and the terminal's timing brought up to date; it is not
/// called in a frame that cannot start, which leaves everything as it was.
/// What the update does is the application's affair, as far as its own
/// `updates` leaves it open: the frame is what `frame_result` says for what
/// the update left behind. The commands returned are to be carried out in
/// order; the command for the update marks where the update ran and is not
/// to run it again. A frame that fails returns no command.
pub fn tock_at<GS: GameState>(
    bterm: &mut BTerm,
    gamestate: &mut GS,
    clock: &mut FrameClock,
    now_seconds: u64,
    now_ms: u128,
    compositor: &mut FrameCompositor,
    backend: &mut PlatformGL,
    registry: &mut Registry,
) -> (r: Result<Vec<RenderCommand>, ConfigError>)
    ensures
        is_frame(
            terminal_view(*old(bterm), *old(clock), *old(compositor), *old(backend), old(registry)@),
            *old(gamestate),
            now_seconds,
            now_ms,
            terminal_view(
                *final(bterm),
                *final(clock),
                *final(compositor),
                *final(backend),
                final(registry)@,
            ),
            *final(gamestate),
            commands_view(r),
        ),
{
    let ghost before = terminal_view(*bterm, *clock, *compositor, *backend, registry@);
    match compositor.state {
        FrameState::Idle => {},
        _ => {
            assert(frame_result(before, now_seconds, now_ms, *bterm, registry@).commands == Err::<
                Seq<RenderCommand>,
                ConfigError,
            >(ConfigError::FrameUnderWay));
            return Err(ConfigError::FrameUnderWay);
        },
    }
    let resources = copy_kinds(&compositor.backings);
    let mut commands = match compositor.step(backend, registry, bterm) {
        Ok(commands) => commands,
        Err(e) => {
            assert(frame_result(before, now_seconds, now_ms, *bterm, registry@).commands == Err::<
                Seq<RenderCommand>,
                ConfigError,
            >(e));
            return Err(e);
        },
    };
    clock.tick(bterm, now_seconds, now_ms);
    gamestate.tick(bterm, registry);
    let ghost updated_bterm = *bterm;
    let ghost updated_registry = registry@;
    match compositor.state {
        FrameState::Idle => {
            assert(frame_result(before, now_seconds, now_ms, updated_bterm, updated_registry)
                == (FrameResult {
                after: terminal_view(*bterm, *clock, *compositor, *backend, registry@),
                commands: Ok(commands@),
            }));
            return Ok(commands);
        },
        _ => {},
    }
    match compositor.finish_frame(backend, registry, bterm) {
        Ok(rest) => {
            let mut rest = rest;
            commands.append(&mut rest);
            assert(frame_result(before, now_seconds, now_ms, updated_bterm, updated_registry)
                == (FrameResult {
                after: terminal_view(*bterm, *clock, *compositor, *backend, registry@),
                commands: Ok(commands@),
            }));
            Ok(commands)
        },
        Err(e) => {
            compositor.backings = resources;
            assert(frame_result(before, now_seconds, now_ms, updated_bterm, updated_registry)
                == (FrameResult {
                after: terminal_view(*bterm, *clock, *compositor, *backend, registry@),
                commands: Err(e),
            }));
            Err(e)
        },
    }
}

/// Runs a frame now: reads from the clock how much time went by since
/// `now`, and runs the frame for that reading, as `tock_at` does. Whatever
/// the clock reads, the frame is a frame for that reading: the seconds and
/// the milliseconds of the reading belong together.
pub fn tock<GS: GameState>(
    bterm: &mut BTerm,
    gamestate: &mut GS,
    clock: &mut FrameClock,
    now: &instant::Instant,
    compositor: &mut FrameCompositor,
    backend: &mut PlatformGL,
    registry: &mut Registry,
) -> (r: Result<Vec<RenderCommand>, ConfigError>)
    ensures
        exists|now_seconds: u64, now_ms: u128|
            now_seconds == now_ms / 1000 && #[trigger] is_frame(
                terminal_view(
                    *old(bterm),
                    *old(clock),
                    *old(compositor),
                    *old(backend),
                    old(registry)@,
                ),
                *old(gamestate),
                now_seconds,
                now_ms,
                terminal_view(
                    *final(bterm),
                    *final(clock),
                    *final(compositor),
                    *final(backend),
                    final(registry)@,
                ),
                *final(gamestate),
                commands_view(r),
            ),
{
    let elapsed = elapsed_since(now);
    tock_at(bterm, gamestate, clock, elapsed.0, elapsed.1, compositor, backend, registry)
}

/// The commands of a frame that has all it needs, from first to last: the
/// device resources are brought in line with the consoles; the backing
/// surface is bound, the viewport set to the logical size, and the surface
/// cleared; the application's update runs, once; the device resources are
/// brought in line with the consoles that the update left behind; every
/// console is drawn, once, in the order of the registry, so that a console
/// registered later is painted over an earlier one; the application's own
/// drawing runs, if there is any; the screen is bound, the viewport set to
/// the window, and the screen cleared; the scanline shader is set up with
/// the screen size,
/// the burn flag and the burn color, or else the shader that shows the
/// surface as it is; and the backing surface is drawn through the one
/// screen quad. Afterwards no frame is under way, the frame is counted, and
/// every console is rebuilt.
pub proof fn lemma_whole_frame(
    before: TerminalView,
    now_seconds: u64,
    now_ms: u128,
    updated_bterm: BTerm,
    updated_registry: RegistryView,
)
    requires
        before.state == FrameState::Idle,
        before.backend.gl,
        before.backend.backing_buffer is Some,
        before.backend.quad_vao is Some,
        !before.backend.screen_scaler.spec_is_degenerate(),
        font_error(updated_registry, updated_registry.consoles.len() as int) is None,
    ensures
        ({
            let r = frame_result(before, now_seconds, now_ms, updated_bterm, updated_registry);
            let kinds = layer_kinds(before.registry);
            let updated = layer_kinds(updated_registry);
            let scaler = before.backend.screen_scaler;
            &&& r.commands == Ok::<Seq<RenderCommand>, ConfigError>(
                reconcile_commands(
                    before.backings,
                    kinds,
                    longer(before.backings.len(), kinds.len()) as int,
                ) + seq![
                    RenderCommand::BindBacking,
                    RenderCommand::Viewport {
                        width: scaler.logical_size.0,
                        height: scaler.logical_size.1,
                    },
                    RenderCommand::Clear,
                    RenderCommand::HostTick,
                ] + reconcile_commands(kinds, updated, longer(kinds.len(), updated.len()) as int)
                + draw_commands(updated_registry) + (if before.backend.gl_callback {
                    seq![RenderCommand::RawCallback]
                } else {
                    Seq::<RenderCommand>::empty()
                }) + seq![
                    RenderCommand::BindDefault,
                    RenderCommand::Viewport {
                        width: scaler.physical_size.0,
                        height: scaler.physical_size.1,
                    },
                    RenderCommand::Clear,
                    if updated_bterm.post_scanlines {
                        RenderCommand::UseScanlineShader {
                            screen_size: (
                                scaled_dimension(updated_bterm.width_pixels, scaler.scale_factor),
                                scaled_dimension(updated_bterm.height_pixels, scaler.scale_factor),
                            ),
                            screen_burn: updated_bterm.post_screenburn,
                            burn_color: updated_bterm.screen_burn_color,
                        }
                    } else {
                        RenderCommand::UsePassthroughShader
                    },
                ] + present_commands(before.backend),
            )
            &&& r.after == (TerminalView {
                bterm: updated_bterm,
                clock: before.clock.ticked(now_seconds, now_ms),
                state: FrameState::Idle,
                backings: updated,
                backend: presented(before.backend),
                registry: updated_registry.rebuilt(),
            })
        }),
{
    let r = frame_result(before, now_seconds, now_ms, updated_bterm, updated_registry);
    let start = frame_step(
        FrameState::Idle,
        before.backings,
        before.backend,
        before.registry,
        before.bterm,
    )->Ok_0;
    let end = frame_end(start.backings, start.backend, updated_registry, updated_bterm);
    assert(end is Ok);
    assert(r.commands is Ok);
    let kinds = layer_kinds(before.registry);
    let updated = layer_kinds(updated_registry);
    let scaler = before.backend.screen_scaler;
    let whole = reconcile_commands(
        before.backings,
        kinds,
        longer(before.backings.len(), kinds.len()) as int,
    ) + seq![
        RenderCommand::BindBacking,
        RenderCommand::Viewport { width: scaler.logical_size.0, height: scaler.logical_size.1 },
        RenderCommand::Clear,
        RenderCommand::HostTick,
    ] + reconcile_commands(kinds, updated, longer(kinds.len(), updated.len()) as int)
        + draw_commands(updated_registry) + (if before.backend.gl_callback {
        seq![RenderCommand::RawCallback]
    } else {
        Seq::<RenderCommand>::empty()
    }) + seq![
        RenderCommand::BindDefault,
        RenderCommand::Viewport { width: scaler.physical_size.0, height: scaler.physical_size.1 },
        RenderCommand::Clear,
        if updated_bterm.post_scanlines {
            RenderCommand::UseScanlineShader {
                screen_size: (
                    scaled_dimension(updated_bterm.width_pixels, scaler.scale_factor),
                    scaled_dimension(updated_bterm.height_pixels, scaler.scale_factor),
                ),
                screen_burn: updated_bterm.post_screenburn,
                burn_color: updated_bterm.screen_burn_color,
            }
        } else {
            RenderCommand::UsePassthroughShader
        },
    ] + present_commands(before.backend);
    assert(r.commands->Ok_0 =~= whole);
}

/// Where the commands of a frame that has all it needs stand. The update
/// runs once, right after the backing surface was bound, given the logical
/// size as its viewport and cleared. Then come the consoles, each drawn
/// once, console `i` at place `i` among them, so that a console registered
/// later is painted over an earlier one. Only then the screen is bound,
/// given the size of the window as its viewport and cleared, the shader is
/// chosen, and the backing surface is drawn through the screen quad, once.
pub proof fn lemma_frame_order(
    before: TerminalView,
    now_seconds: u64,
    now_ms: u128,
    updated_bterm: BTerm,
    updated_registry: RegistryView,
)
    requires
        before.state == FrameState::Idle,
        before.backend.gl,
        before.backend.backing_buffer is Some,
        before.backend.quad_vao is Some,
        !before.backend.screen_scaler.spec_is_degenerate(),
        font_error(updated_registry, updated_registry.consoles.len() as int) is None,
    ensures
        ({
            let r = frame_result(before, now_seconds, now_ms, updated_bterm, updated_registry);
            let commands = r.commands->Ok_0;
            let kinds = layer_kinds(before.registry);
            let updated = layer_kinds(updated_registry);
            let scaler = before.backend.screen_scaler;
            let quad = before.backend.quad_vao->0;
            let update = reconcile_commands(
                before.backings,
                kinds,
                longer(before.backings.len(), kinds.len()) as int,
            ).len() + 3;
            let first = update + 1 + reconcile_commands(
                kinds,
                updated,
                longer(kinds.len(), updated.len()) as int,
            ).len();
            let consoles = updated_registry.consoles.len();
            let screen = first + consoles + if before.backend.gl_callback {
                1int
            } else {
                0int
            };
            &&& r.commands is Ok
            &&& commands.len() == screen + 4 + present_commands(before.backend).len()
            &&& commands[update - 3] == RenderCommand::BindBacking
            &&& commands[update - 2] == (RenderCommand::Viewport {
                width: scaler.logical_size.0,
                height: scaler.logical_size.1,
            })
            &&& commands[update - 1] == RenderCommand::Clear
            &&& commands[update as int] == RenderCommand::HostTick
            &&& forall|i: int|
                0 <= i < consoles ==> #[trigger] commands[first + i]
                    == (RenderCommand::DrawConsole {
                    index: i as usize,
                    font_index: updated_registry.consoles[i].font_index,
                    upload: updated_registry.consoles[i].console.dirty(),
                })
            &&& commands[screen] == RenderCommand::BindDefault
            &&& commands[screen + 1] == (RenderCommand::Viewport {
                width: scaler.physical_size.0,
                height: scaler.physical_size.1,
            })
            &&& commands[screen + 2] == RenderCommand::Clear
            &&& commands[screen + 3] is UseScanlineShader || commands[screen + 3]
                == RenderCommand::UsePassthroughShader
            &&& commands[screen + 4] == (RenderCommand::DrawQuad {
                left: quad.0,
                right: quad.1,
                top: quad.2,
                bottom: quad.3,
            })
            &&& forall|k: int|
                0 <= k < commands.len() ==> {
                    &&& #[trigger] commands[k] == RenderCommand::HostTick ==> k == update
                    &&& commands[k] is DrawConsole ==> first <= k < first + consoles
                    &&& commands[k] is DrawQuad ==> k == screen + 4
                }
        }),
{
    lemma_whole_frame(before, now_seconds, now_ms, updated_bterm, updated_registry);
    let r = frame_result(before, now_seconds, now_ms, updated_bterm, updated_registry);
    let commands = r.commands->Ok_0;
    let kinds = layer_kinds(before.registry);
    let updated = layer_kinds(updated_registry);
    let scaler = before.backend.screen_scaler;
    let made = reconcile_commands(
        before.backings,
        kinds,
        longer(before.backings.len(), kinds.len()) as int,
    );
    let bound = seq![
        RenderCommand::BindBacking,
        RenderCommand::Viewport { width: scaler.logical_size.0, height: scaler.logical_size.1 },
        RenderCommand::Clear,
        RenderCommand::HostTick,
    ];
    let remade = reconcile_commands(kinds, updated, longer(kinds.len(), updated.len()) as int);
    let draws = draw_commands(updated_registry);
    let own = if before.backend.gl_callback {
        seq![RenderCommand::RawCallback]
    } else {
        Seq::<RenderCommand>::empty()
    };
    let shown = seq![
        RenderCommand::BindDefault,
        RenderCommand::Viewport { width: scaler.physical_size.0, height: scaler.physical_size.1 },
        RenderCommand::Clear,
        if updated_bterm.post_scanlines {
            RenderCommand::UseScanlineShader {
                screen_size: (
                    scaled_dimension(updated_bterm.width_pixels, scaler.scale_factor),
                    scaled_dimension(updated_bterm.height_pixels, scaler.scale_factor),
                ),
                screen_burn: updated_bterm.post_screenburn,
                burn_color: updated_bterm.screen_burn_color,
            }
        } else {
            RenderCommand::UsePassthroughShader
        },
    ];
    let last = present_commands(before.backend);
    assert(commands == made + bound + remade + draws + own + shown + last);
    lemma_reconcile_commands(
        before.backings,
        kinds,
        longer(before.backings.len(), kinds.len()) as int,
    );
    lemma_reconcile_commands(kinds, updated, longer(kinds.len(), updated.len()) as int);
    let a = made.len() as int;
    let b = a + 4;
    let c = b + remade.len();
    let d = c + draws.len();
    let e = d + own.len();
    let f = e + 4;
    assert forall|k: int| 0 <= k < commands.len() implies #[trigger] commands[k] == (if k < a {
        made[k]
    } else if k < b {
        bound[k - a]
    } else if k < c {
        remade[k - b]
    } else if k < d {
        draws[k - c]
    } else if k < e {
        own[k - d]
    } else if k < f {
        shown[k - e]
    } else {
        last[k - f]
    }) by {}
    assert(commands[a] == bound[0]);
    assert(commands[a + 1] == bound[1]);
    assert(commands[a + 2] == bound[2]);
    assert(commands[a + 3] == bound[3]);
    assert(commands[e] == shown[0]);
    assert(commands[e + 1] == shown[1]);
    assert(commands[e + 2] == shown[2]);
    assert(commands[e + 3] == shown[3]);
    assert(commands[f] == last[0]);
    assert forall|i: int| 0 <= i < draws.len() implies #[trigger] commands[c + i] == draws[i] by {}
}

/// A frame that lacks something does nothing: while another frame is under
/// way, or without the graphics context, the backing surface or the screen
/// quad, the frame gives the error and no command, the application's update
/// does not run, and everything stays as it was.
pub proof fn lemma_frame_stops_early(
    before: TerminalView,
    now_seconds: u64,
    now_ms: u128,
    updated_bterm: BTerm,
    updated_registry: RegistryView,
)
    requires
        before.state != FrameState::Idle || !before.backend.gl || before.backend.backing_buffer
            is None || before.backend.quad_vao is None,
    ensures
        ({
            let r = frame_result(before, now_seconds, now_ms, updated_bterm, updated_registry);
            &&& r.after == before
            &&& r.commands == Err::<Seq<RenderCommand>, ConfigError>(
                if before.state != FrameState::Idle {
                    ConfigError::FrameUnderWay
                } else if !before.backend.gl {
                    ConfigError::MissingContext
                } else if before.backend.backing_buffer is None {
                    ConfigError::MissingBackingBuffer
                } else {
                    ConfigError::MissingQuad
                },
            )
        }),
{
}

/// No console is drawn from a geometry that is out of date or in part: in
/// a frame that gives its commands and shows something, every console is
/// rebuilt before it is drawn, and has one quad for each of its cells,
/// glyphs or sprites, whatever the application's update did to it.
pub proof fn lemma_frame_draws_whole_consoles(
    before: TerminalView,
    now_seconds: u64,
    now_ms: u128,
    updated_bterm: BTerm,
    updated_registry: RegistryView,
)
    requires
        updated_registry.wf(),
        frame_result(before, now_seconds, now_ms, updated_bterm, updated_registry).commands is Ok,
        !before.backend.screen_scaler.spec_is_degenerate(),
    ensures
        ({
            let drawn = frame_result(
                before,
                now_seconds,
                now_ms,
                updated_bterm,
                updated_registry,
            ).after.registry;
            &&& drawn == updated_registry.rebuilt()
            &&& forall|i: int|
                0 <= i < drawn.consoles.len() ==> !(#[trigger] drawn.consoles[i]).console.dirty()
                    && drawn.consoles[i].console.geometry_len()
                    == drawn.consoles[i].console.content_len()
        }),
{
    let start = frame_step(
        FrameState::Idle,
        before.backings,
        before.backend,
        before.registry,
        before.bterm,
    )->Ok_0;
    crate::compositor::lemma_consoles_are_drawn_whole(
        start.backings,
        start.backend,
        updated_registry,
        updated_bterm,
    );
}

/// Ends a frame: the terminal forgets the input that it was handed, and
/// the mailbox every event but the pointer's position.
pub fn end_frame(mailbox: &mut EventMailbox, bterm: &mut BTerm)
    ensures
        *final(mailbox) == old(mailbox).cleared(),
        *final(bterm) == (BTerm {
            key: None,
            left_click: false,
            shift: false,
            control: false,
            alt: false,
            web_button: None,
            ..*old(bterm)
        }),
{
    clear_input_state(bterm);
    mailbox.clear();
}

} // verus!
