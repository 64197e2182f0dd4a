//! Stream probing: choosing the video stream of a freshly opened container
//! and resolving the immutable per-session stream description.
//!
//! Opening the container and reading its stream table are native calls made
//! by the embedding program; what arrives here is one plain descriptor per
//! elementary stream, in container order. The selection policy and its
//! failure taxonomy are decided and verified here.

use vstd::prelude::*;
use crate::clock::TimeBase;

verus! {

/// The kind of an elementary stream, as the container declares it.
#[derive(Clone, Copy, Debug, PartialEq, Eq, Structural)]
pub enum MediaKind {
    Video,
    Audio,
    Other,
}

/// What probing learns about one elementary stream: its declared kind,
/// whether a decoder is registered for its codec, and the codec parameters
/// the player reads (dimensions and time base).
#[derive(Clone, Copy, Debug, PartialEq, Eq, Structural)]
pub struct StreamDesc {
    pub kind: MediaKind,
    pub decoder_available: bool,
    pub width: i32,
    pub height: i32,
    pub time_base: TimeBase,
}

/// The immutable description of the selected video stream, fixed once
/// probing succeeds and read for the rest of the session.
#[derive(Clone, Copy, Debug, PartialEq, Eq, Structural)]
pub struct StreamInfo {
    /// Index of the selected stream in the container's stream table.
    pub stream_index: usize,
    pub width: i32,
    pub height: i32,
    /// Seconds per presentation tick of the selected stream.
    pub time_base: TimeBase,
    /// Declared container duration in microseconds, as the header reports
    /// it (a container with an unknown duration may report a negative
    /// value; the stop heuristic then simply never fires).
    pub duration_us: i64,
}

impl StreamInfo {
    /// Every successfully probed session has positive dimensions and a
    /// usable time base.
    pub open spec fn wf(self) -> bool {
        self.width > 0 && self.height > 0 && self.time_base.wf()
    }
}

/// Failure taxonomy of the player. Probing reports the middle three; the
/// embedding program maps a failed container open to `Open`, a failed
/// native decoder or scaler setup to `DecoderInit` or `ConversionInit`,
/// and a fatal mid-playback decoding failure to `Decode`.
#[derive(Clone, Copy, Debug, PartialEq, Eq, Structural)]
pub enum PlayerError {
    Open,
    NoVideoStream,
    UnsupportedCodec,
    DecoderInit,
    ConversionInit,
    Decode,
}

pub open spec fn is_video(d: StreamDesc) -> bool {
    d.kind is Video
}

/// `i` indexes the first video stream of the table: it is a video stream
/// and nothing before it is one.
pub open spec fn first_video_at(streams: Seq<StreamDesc>, i: int) -> bool {
    &&& 0 <= i < streams.len()
    &&& is_video(streams[i])
    &&& forall|j: int| 0 <= j < i ==> !is_video(#[trigger] streams[j])
}

/// Codec parameters the player can work with: positive dimensions and a
/// usable time base.
pub open spec fn stream_params_ok(d: StreamDesc) -> bool {
    d.width > 0 && d.height > 0 && d.time_base.wf()
}

/// At most one index is the first video stream.
pub proof fn lemma_first_video_unique(streams: Seq<StreamDesc>, i: int, j: int)
    requires
        first_video_at(streams, i),
        first_video_at(streams, j),
    ensures
        i == j,
{
    if i < j {
        assert(!is_video(streams[i]));
    }
    if j < i {
        assert(!is_video(streams[j]));
    }
}

/// Selects the video stream of a probed container: the first stream whose
/// declared kind is video, later video streams ignored. Succeeds exactly
/// when that stream has a registered decoder and usable codec parameters;
/// otherwise reports which requirement failed. `duration_us` is the
/// container's declared duration and is carried into the result unchanged.
pub fn select_video_stream(streams: &Vec<StreamDesc>, duration_us: i64) -> (r: Result<
    StreamInfo,
    PlayerError,
>)
    ensures
        r matches Ok(info) ==> {
            &&& first_video_at(streams@, info.stream_index as int)
            &&& streams@[info.stream_index as int].decoder_available
            &&& stream_params_ok(streams@[info.stream_index as int])
            &&& info.width == streams@[info.stream_index as int].width
            &&& info.height == streams@[info.stream_index as int].height
            &&& info.time_base == streams@[info.stream_index as int].time_base
            &&& info.duration_us == duration_us
            &&& info.wf()
        },
        r is Ok <==> exists|i: int|
            #[trigger] first_video_at(streams@, i) && streams@[i].decoder_available
                && stream_params_ok(streams@[i]),
        r == Err::<StreamInfo, PlayerError>(PlayerError::NoVideoStream) <==> (forall|j: int|
            0 <= j < streams@.len() ==> !is_video(#[trigger] streams@[j])),
        r == Err::<StreamInfo, PlayerError>(PlayerError::UnsupportedCodec) <==> exists|i: int|
            #[trigger] first_video_at(streams@, i) && !streams@[i].decoder_available,
        r == Err::<StreamInfo, PlayerError>(PlayerError::DecoderInit) <==> exists|i: int|
            #[trigger] first_video_at(streams@, i) && streams@[i].decoder_available
                && !stream_params_ok(streams@[i]),
        r is Err ==> (r == Err::<StreamInfo, PlayerError>(PlayerError::NoVideoStream) || r
            == Err::<StreamInfo, PlayerError>(PlayerError::UnsupportedCodec) || r == Err::<
            StreamInfo,
            PlayerError,
        >(PlayerError::DecoderInit)),
{
    let n = streams.len();
    let mut k: usize = 0;
    while k < n
        invariant
            n == streams@.len(),
            k <= n,
            forall|j: int| 0 <= j < k ==> !is_video(#[trigger] streams@[j]),
        decreases n - k,
    {
        let d = streams[k];
        match d.kind {
            MediaKind::Video => {
                proof {
                    assert(first_video_at(streams@, k as int));
                    assert forall|i: int| #[trigger] first_video_at(streams@, i) implies i
                        == k as int by {
                        lemma_first_video_unique(streams@, i, k as int);
                    }
                }
                if !d.decoder_available {
                    return Err(PlayerError::UnsupportedCodec);
                }
                if d.width <= 0 || d.height <= 0 || d.time_base.den <= 0 || d.time_base.num < 0 {
                    return Err(PlayerError::DecoderInit);
                }
                return Ok(
                    StreamInfo {
                        stream_index: k,
                        width: d.width,
                        height: d.height,
                        time_base: d.time_base,
                        duration_us,
                    },
                );
            },
            _ => {},
        }
        k += 1;
    }
    proof {
        assert forall|i: int| !(#[trigger] first_video_at(streams@, i)) by {
            if first_video_at(streams@, i) {
                assert(!is_video(streams@[i]));
            }
        }
    }
    Err(PlayerError::NoVideoStream)
}

} // verus!
