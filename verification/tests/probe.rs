use video_player::clock::TimeBase;
use video_player::probe::{select_video_stream, MediaKind, PlayerError, StreamDesc};

fn audio() -> StreamDesc {
    StreamDesc {
        kind: MediaKind::Audio,
        decoder_available: true,
        width: 0,
        height: 0,
        time_base: TimeBase { num: 1, den: 48_000 },
    }
}

fn video() -> StreamDesc {
    StreamDesc {
        kind: MediaKind::Video,
        decoder_available: true,
        width: 1280,
        height: 720,
        time_base: TimeBase { num: 1, den: 30 },
    }
}

#[test]
fn selects_first_video_stream() {
    let streams = vec![audio(), video()];
    let info = select_video_stream(&streams, 2_000_000).unwrap();
    assert_eq!(info.stream_index, 1);
    assert_eq!(info.width, 1280);
    assert_eq!(info.height, 720);
    assert_eq!(info.time_base, TimeBase { num: 1, den: 30 });
    assert_eq!(info.duration_us, 2_000_000);
}

#[test]
fn probed_info_has_positive_dimensions_and_time_base() {
    // every successful probe yields positive width, height and denominator
    let streams = vec![video(), audio()];
    let info = select_video_stream(&streams, 123).unwrap();
    assert!(info.width > 0);
    assert!(info.height > 0);
    assert!(info.time_base.den > 0);
}

#[test]
fn later_video_streams_are_ignored() {
    let mut second = video();
    second.width = 320;
    second.height = 200;
    let streams = vec![audio(), video(), second];
    let info = select_video_stream(&streams, 0).unwrap();
    assert_eq!(info.stream_index, 1);
    assert_eq!(info.width, 1280);
}

#[test]
fn no_video_stream_is_reported() {
    let streams = vec![audio(), audio()];
    assert_eq!(
        select_video_stream(&streams, 0),
        Err(PlayerError::NoVideoStream)
    );
    let empty: Vec<StreamDesc> = Vec::new();
    assert_eq!(select_video_stream(&empty, 0), Err(PlayerError::NoVideoStream));
}

#[test]
fn unsupported_codec_is_reported() {
    let mut v = video();
    v.decoder_available = false;
    // even if a later video stream has a decoder, the first one decides
    let streams = vec![audio(), v, video()];
    assert_eq!(
        select_video_stream(&streams, 0),
        Err(PlayerError::UnsupportedCodec)
    );
}

#[test]
fn bad_codec_parameters_are_reported() {
    let mut v = video();
    v.width = 0;
    let streams = vec![v];
    assert_eq!(select_video_stream(&streams, 0), Err(PlayerError::DecoderInit));

    let mut v = video();
    v.time_base = TimeBase { num: 1, den: 0 };
    let streams = vec![audio(), v];
    assert_eq!(select_video_stream(&streams, 0), Err(PlayerError::DecoderInit));

    let mut v = video();
    v.time_base = TimeBase { num: -1, den: 30 };
    let streams = vec![v];
    assert_eq!(select_video_stream(&streams, 0), Err(PlayerError::DecoderInit));
}
