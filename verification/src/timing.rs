//! Frame timing: frames per second and the time a frame took.
//!
//! The clock is read where a frame is run; what the reading does to the
//! count of frames is said here.

use vstd::prelude::*;
use crate::platform::BTerm;

verus! {

/// A point in time, as the platform's clock gives it. Nothing can be read
/// from it but the time that went by since.
#[verifier::external_type_specification]
#[verifier::external_body]
pub struct ExInstant(instant::Instant);

/// Reads the clock: the whole seconds and the whole milliseconds that went
/// by since `start`; none if `start` lies ahead of the clock.
///
/// Calls `instant::Instant::now` and takes the time since `start` from it
/// with `saturating_duration_since`, which gives an empty duration for an
/// instant that is yet to come where `elapsed` may panic. Both numbers are
/// taken from that one duration. Which duration it is cannot be said; the
/// contract only says that the two numbers belong to one duration, so that
/// the seconds are the milliseconds divided by a thousand.
#[verifier::external_body]
pub(crate) fn elapsed_since(start: &instant::Instant) -> (elapsed: (u64, u128))
    ensures
        elapsed.0 == elapsed.1 / 1000,
{
    let duration = instant::Instant::now().saturating_duration_since(*start);
    (duration.as_secs(), duration.as_millis())
}

/// What is counted between two readings of the clock.
#[derive(Clone, Copy, Debug, PartialEq, Eq, Structural)]
pub struct FrameClock {
    /// The frames since the frame rate was last computed.
    pub frames: u32,
    /// The second in which the frame rate was last computed.
    pub prev_seconds: u64,
    /// The millisecond in which the last frame started.
    pub prev_ms: u128,
}

impl FrameClock {
    /// The clock after a frame that starts in second `now_seconds`: the
    /// frame is counted, and when a new second has begun the count starts
    /// over.
    pub open spec fn ticked(self, now_seconds: u64, now_ms: u128) -> FrameClock {
        FrameClock {
            frames: if now_seconds > self.prev_seconds {
                0
            } else {
                self.counted()
            },
            prev_seconds: if now_seconds > self.prev_seconds {
                now_seconds
            } else {
                self.prev_seconds
            },
            prev_ms: if now_ms > self.prev_ms {
                now_ms
            } else {
                self.prev_ms
            },
        }
    }

    /// The number of frames with this frame counted, at most the largest
    /// `u32`.
    pub open spec fn counted(self) -> u32 {
        if self.frames < u32::MAX {
            (self.frames + 1) as u32
        } else {
            self.frames
        }
    }

    /// The terminal after a frame that starts at the given time. When a
    /// new second has begun, the frame rate is the frames counted divided
    /// by the seconds that went by, in thousandths. When time has gone by
    /// since the last frame, the frame time is that time.
    pub open spec fn timed(self, bterm: BTerm, now_seconds: u64, now_ms: u128) -> BTerm {
        BTerm {
            fps: if now_seconds > self.prev_seconds {
                ((self.counted() as int * 1000) / (now_seconds - self.prev_seconds)) as u64
            } else {
                bterm.fps
            },
            frame_time_ms: if now_ms > self.prev_ms {
                (now_ms - self.prev_ms) as u128
            } else {
                bterm.frame_time_ms
            },
            ..bterm
        }
    }

    /// A clock that starts at the given time with no frame counted.
    pub fn new(now_seconds: u64, now_ms: u128) -> (clock: FrameClock)
        ensures
            clock == (FrameClock { frames: 0, prev_seconds: now_seconds, prev_ms: now_ms }),
    {
        FrameClock { frames: 0, prev_seconds: now_seconds, prev_ms: now_ms }
    }

    /// Counts a frame that starts `now_seconds` whole seconds and `now_ms`
    /// whole milliseconds after the clock's origin, and brings the frame
    /// rate and the frame time of the terminal up to date.
    pub fn tick(&mut self, bterm: &mut BTerm, now_seconds: u64, now_ms: u128)
        ensures
            *final(self) == old(self).ticked(now_seconds, now_ms),
            *final(bterm) == old(self).timed(*old(bterm), now_seconds, now_ms),
    {
        if self.frames < u32::MAX {
            self.frames = self.frames + 1;
        }
        if now_seconds > self.prev_seconds {
            let seconds: u64 = now_seconds - self.prev_seconds;
            bterm.fps = (self.frames as u64 * 1000) / seconds;
            self.frames = 0;
            self.prev_seconds = now_seconds;
        }
        if now_ms > self.prev_ms {
            bterm.frame_time_ms = now_ms - self.prev_ms;
            self.prev_ms = now_ms;
        }
    }
}

} // verus!
