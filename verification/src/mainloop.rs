//! The frame loop: when a frame is asked for and when it is drawn.
//!
//! The display calls back once for each frame that was asked of it. A frame
//! is drawn to its end before the next one is asked for, so frames never
//! overlap and never nest. The loop itself performs nothing: it is told
//! what happened and answers what to do next.

use vstd::prelude::*;

verus! {

/// Where the frame loop stands.
#[derive(Clone, Copy, Debug, PartialEq, Eq, Structural)]
pub enum LoopPhase {
    /// The loop was not started.
    Idle,
    /// A frame was asked of the display and is awaited.
    Scheduled,
    /// A frame is being drawn.
    Drawing,
}

/// What happened outside the loop.
#[derive(Clone, Copy, Debug, PartialEq, Eq, Structural)]
pub enum LoopEvent {
    /// The application starts the loop.
    Start,
    /// The display says that the frame asked for is due.
    FrameDue,
    /// The frame was drawn to its end.
    FrameDrawn,
}

/// What is to be done outside the loop.
#[derive(Clone, Copy, Debug, PartialEq, Eq, Structural)]
pub enum LoopAction {
    /// Ask the display to call back for the next frame.
    RequestFrame,
    /// Draw a frame now.
    DrawFrame,
    /// Do nothing: the event does not fit the phase.
    Ignore,
}

/// The state of the frame loop.
#[derive(Clone, Copy, Debug, PartialEq, Eq, Structural)]
pub struct FrameLoop {
    /// Where the loop stands.
    pub phase: LoopPhase,
    /// The number of frames drawn to their end, at most the largest `u64`.
    pub frames: u64,
}

impl FrameLoop {
    /// The state after an event, and what is to be done then. An event that
    /// does not fit the phase changes nothing.
    pub open spec fn step(self, event: LoopEvent) -> (FrameLoop, LoopAction) {
        match (self.phase, event) {
            (LoopPhase::Idle, LoopEvent::Start) => (
                FrameLoop { phase: LoopPhase::Scheduled, ..self },
                LoopAction::RequestFrame,
            ),
            (LoopPhase::Scheduled, LoopEvent::FrameDue) => (
                FrameLoop { phase: LoopPhase::Drawing, ..self },
                LoopAction::DrawFrame,
            ),
            (LoopPhase::Drawing, LoopEvent::FrameDrawn) => (
                FrameLoop {
                    phase: LoopPhase::Scheduled,
                    frames: if self.frames < u64::MAX {
                        (self.frames + 1) as u64
                    } else {
                        self.frames
                    },
                },
                LoopAction::RequestFrame,
            ),
            _ => (self, LoopAction::Ignore),
        }
    }

    /// A loop that was not started.
    pub fn new() -> (state: FrameLoop)
        ensures
            state == (FrameLoop { phase: LoopPhase::Idle, frames: 0 }),
    {
        FrameLoop { phase: LoopPhase::Idle, frames: 0 }
    }
}

/// Notes that the next frame is asked of the display, and says that the
/// display is to be asked.
pub fn request_animation_frame(state: &mut FrameLoop) -> (action: LoopAction)
    ensures
        *final(state) == (FrameLoop { phase: LoopPhase::Scheduled, ..*old(state) }),
        action == LoopAction::RequestFrame,
{
    state.phase = LoopPhase::Scheduled;
    LoopAction::RequestFrame
}

/// Takes the loop one step further: notes what happened and says what to do
/// next. Starting asks for the first frame; a frame that is due is drawn; a
/// frame that was drawn is counted and the next one asked for. A frame that
/// falls due while another is drawn, or without having been asked for, is
/// ignored.
pub fn run(state: &mut FrameLoop, event: LoopEvent) -> (action: LoopAction)
    ensures
        (*final(state), action) == old(state).step(event),
{
    match (state.phase, event) {
        (LoopPhase::Idle, LoopEvent::Start) => request_animation_frame(state),
        (LoopPhase::Scheduled, LoopEvent::FrameDue) => {
            state.phase = LoopPhase::Drawing;
            LoopAction::DrawFrame
        },
        (LoopPhase::Drawing, LoopEvent::FrameDrawn) => {
            if state.frames < u64::MAX {
                state.frames = state.frames + 1;
            }
            request_animation_frame(state)
        },
        _ => LoopAction::Ignore,
    }
}

/// A frame is only ever drawn after it was asked for, and while a frame is
/// drawn no other frame starts.
pub proof fn lemma_frames_never_nest(state: FrameLoop, event: LoopEvent)
    ensures
        state.step(event).1 == LoopAction::DrawFrame ==> state.phase == LoopPhase::Scheduled
            && state.step(event).0.phase == LoopPhase::Drawing,
        state.phase == LoopPhase::Drawing ==> state.step(event).1 != LoopAction::DrawFrame,
        state.step(event).1 == LoopAction::RequestFrame ==> state.phase != LoopPhase::Scheduled
            && state.step(event).0.phase == LoopPhase::Scheduled,
{
}

} // verus!
