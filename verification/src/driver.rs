//! The playback driver: the per-iteration decisions that orchestrate
//! decoding, conversion, clock pacing and display.
//!
//! One iteration of the embedding program's loop drains window events,
//! checks for a stop request, runs the decode loop to one outcome, and then
//! asks the driver what to do with it. The driver owns the session's
//! progress through `NotStarted -> Playing -> Stopped`: the one-time
//! first-frame setup (texture allocation and the wall-clock origin reset),
//! the per-frame dimension check, the end-of-stream stop heuristic checked
//! before any waiting, and the terminal transitions. A frame at or past the
//! end-of-stream condition is never displayed, and `Stopped` is terminal:
//! no method accepts a stopped driver, so no decode follows a stop.

use vstd::prelude::*;
use crate::clock::end_of_stream;
use crate::clock::end_of_stream_reached;
use crate::probe::StreamInfo;

verus! {

/// The session's progress. `Playing` carries the frame dimensions fixed at
/// the first decoded frame; the texture keeps them for the whole session.
#[derive(Clone, Copy, Debug, PartialEq, Eq, Structural)]
pub enum PlaybackPhase {
    NotStarted,
    Playing { frame_width: i32, frame_height: i32 },
    Stopped,
}

/// The result of one full decode exchange, as the embedding program hands
/// it over.
#[derive(Clone, Copy, Debug, PartialEq, Eq, Structural)]
pub enum DecodeOutcome {
    Frame { pts: i64, width: i32, height: i32 },
    EndOfStream,
    Failed,
}

/// Why playback stopped. The embedding program exits normally on the first
/// three and reports a fatal error on the last.
#[derive(Clone, Copy, Debug, PartialEq, Eq, Structural)]
pub enum StopReason {
    /// An external stop request (the user closed the window).
    UserStop,
    /// The container is exhausted.
    EndOfStream,
    /// The stop heuristic fired: the frame's presentation time reached the
    /// declared duration's last whole second.
    DurationReached,
    /// A frame could not be decoded, or a frame arrived with dimensions
    /// other than the session's.
    DecodeFailed,
}

/// What the embedding program does with the iteration's outcome.
#[derive(Clone, Copy, Debug, PartialEq, Eq, Structural)]
pub enum DriverAction {
    /// First frame of the session: reset the wall clock to zero, allocate
    /// the texture at these dimensions, wait until the frame is due, then
    /// display it.
    FirstFrame { pts: i64, width: i32, height: i32 },
    /// A further frame: wait until it is due, then display it into the
    /// existing texture.
    ShowFrame { pts: i64 },
    /// Tear the session down, releasing every native handle in reverse
    /// acquisition order, and leave the loop.
    Stop { reason: StopReason },
}

/// Whether a decoded frame's dimensions fit the session: positive for the
/// first frame (they size the texture), and exactly the established ones
/// afterwards. A mid-stream dimension change is a decode failure, not a
/// silent reallocation.
pub open spec fn frame_dims_ok(phase: PlaybackPhase, width: int, height: int) -> bool {
    match phase {
        PlaybackPhase::NotStarted => width > 0 && height > 0,
        PlaybackPhase::Playing { frame_width, frame_height } => width == frame_width && height
            == frame_height,
        PlaybackPhase::Stopped => false,
    }
}

/// The complete decision table for one decode outcome: the next phase and
/// the action to perform.
pub open spec fn driver_step(info: StreamInfo, phase: PlaybackPhase, outcome: DecodeOutcome) -> (
    PlaybackPhase,
    DriverAction,
) {
    match outcome {
        DecodeOutcome::EndOfStream => (
            PlaybackPhase::Stopped,
            DriverAction::Stop { reason: StopReason::EndOfStream },
        ),
        DecodeOutcome::Failed => (
            PlaybackPhase::Stopped,
            DriverAction::Stop { reason: StopReason::DecodeFailed },
        ),
        DecodeOutcome::Frame { pts, width, height } => if !frame_dims_ok(
            phase,
            width as int,
            height as int,
        ) {
            (PlaybackPhase::Stopped, DriverAction::Stop { reason: StopReason::DecodeFailed })
        } else if end_of_stream_reached(info.duration_us as int, pts as int, info.time_base) {
            (PlaybackPhase::Stopped, DriverAction::Stop { reason: StopReason::DurationReached })
        } else {
            match phase {
                PlaybackPhase::NotStarted => (
                    PlaybackPhase::Playing { frame_width: width, frame_height: height },
                    DriverAction::FirstFrame { pts, width, height },
                ),
                _ => (phase, DriverAction::ShowFrame { pts }),
            }
        },
    }
}

/// The playback driver for one probed session.
pub struct PlaybackDriver {
    /// The selected stream's immutable description.
    pub info: StreamInfo,
    pub phase: PlaybackPhase,
}

impl PlaybackDriver {
    pub open spec fn wf(self) -> bool {
        self.info.wf()
    }

    /// A driver for a freshly probed session, before its first frame.
    pub fn new(info: StreamInfo) -> (r: Self)
        requires
            info.wf(),
        ensures
            r.info == info,
            r.phase is NotStarted,
            r.wf(),
    {
        PlaybackDriver { info, phase: PlaybackPhase::NotStarted }
    }

    /// The stop check at the top of each iteration: a pending external stop
    /// request stops the session before any further decode; otherwise the
    /// iteration proceeds unchanged.
    pub fn begin_iteration(&mut self, stop_requested: bool) -> (r: Option<DriverAction>)
        requires
            !(old(self).phase is Stopped),
        ensures
            final(self).info == old(self).info,
            stop_requested ==> final(self).phase is Stopped && r == Some(
                DriverAction::Stop { reason: StopReason::UserStop },
            ),
            !stop_requested ==> final(self).phase == old(self).phase && r is None,
    {
        if stop_requested {
            self.phase = PlaybackPhase::Stopped;
            Some(DriverAction::Stop { reason: StopReason::UserStop })
        } else {
            None
        }
    }

    /// Decides what to do with one decode outcome, per the decision table
    /// `driver_step`. In particular: a frame at or past the end-of-stream
    /// condition, checked here before any waiting, stops the session and is
    /// never displayed.
    pub fn on_decode_outcome(&mut self, outcome: DecodeOutcome) -> (r: DriverAction)
        requires
            old(self).wf(),
            !(old(self).phase is Stopped),
        ensures
            final(self).info == old(self).info,
            final(self).wf(),
            (final(self).phase, r) == driver_step(old(self).info, old(self).phase, outcome),
            r is Stop <==> final(self).phase is Stopped,
            (r is FirstFrame || r is ShowFrame) ==> {
                &&& outcome matches DecodeOutcome::Frame { pts, .. }
                &&& !end_of_stream_reached(
                    old(self).info.duration_us as int,
                    pts as int,
                    old(self).info.time_base,
                )
                &&& final(self).phase is Playing
            },
            r is FirstFrame ==> old(self).phase is NotStarted,
    {
        match outcome {
            DecodeOutcome::EndOfStream => {
                self.phase = PlaybackPhase::Stopped;
                DriverAction::Stop { reason: StopReason::EndOfStream }
            },
            DecodeOutcome::Failed => {
                self.phase = PlaybackPhase::Stopped;
                DriverAction::Stop { reason: StopReason::DecodeFailed }
            },
            DecodeOutcome::Frame { pts, width, height } => {
                let dims_ok = match self.phase {
                    PlaybackPhase::NotStarted => width > 0 && height > 0,
                    PlaybackPhase::Playing { frame_width, frame_height } => width == frame_width
                        && height == frame_height,
                    PlaybackPhase::Stopped => false,
                };
                if !dims_ok {
                    self.phase = PlaybackPhase::Stopped;
                    return DriverAction::Stop { reason: StopReason::DecodeFailed };
                }
                if end_of_stream(self.info.duration_us, pts, &self.info.time_base) {
                    self.phase = PlaybackPhase::Stopped;
                    return DriverAction::Stop { reason: StopReason::DurationReached };
                }
                match self.phase {
                    PlaybackPhase::NotStarted => {
                        self.phase = PlaybackPhase::Playing {
                            frame_width: width,
                            frame_height: height,
                        };
                        DriverAction::FirstFrame { pts, width, height }
                    },
                    _ => DriverAction::ShowFrame { pts },
                }
            },
        }
    }
}

/// The `NotStarted -> Playing` transition — and with it the wall-clock
/// origin reset and the texture allocation of `FirstFrame` — happens at
/// most once: the decision table yields `FirstFrame` only from
/// `NotStarted`, and never leads back to `NotStarted`.
pub proof fn lemma_first_frame_once(info: StreamInfo, phase: PlaybackPhase, outcome: DecodeOutcome)
    ensures
        ({
            let (next, action) = driver_step(info, phase, outcome);
            &&& action is FirstFrame ==> phase is NotStarted
            &&& !(phase is NotStarted) ==> !(next is NotStarted)
        }),
{
}

/// `Stopped` is terminal: no decode outcome leads out of it, and it only
/// ever commands teardown — a stopped session touches no native resource
/// a second time.
pub proof fn lemma_stopped_is_terminal(info: StreamInfo, outcome: DecodeOutcome)
    ensures
        driver_step(info, PlaybackPhase::Stopped, outcome).0 is Stopped,
        driver_step(info, PlaybackPhase::Stopped, outcome).1 is Stop,
{
}

} // verus!
