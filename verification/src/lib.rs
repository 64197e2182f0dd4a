//! Core logic of a single-stream video player: stream selection, the
//! packet-to-frame decode loop as a state machine, pixel-converter context
//! management, and the playback clock that paces decoded frames against
//! wall-clock time. All native demuxing, decoding, scaling and rendering
//! calls live outside this crate; the types here are driven with plain
//! values and decide every control-flow step of playback.

pub mod clock;
pub mod convert;
pub mod decode;
pub mod driver;
pub mod probe;
