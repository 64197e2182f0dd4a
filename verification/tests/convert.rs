use video_player::convert::{ContextAction, ConvertedBuffer, FrameGeometry, PixelConverter};

const YUV420P: i32 = 0;
const RGB24: i32 = 2;

#[test]
fn first_frame_builds_a_context() {
    let mut pc = PixelConverter::new();
    let g = FrameGeometry { width: 640, height: 480, pixel_format: YUV420P };
    assert_eq!(pc.prepare(g), ContextAction::Recreate);
}

#[test]
fn identical_geometry_reuses_the_context() {
    // preparing the same (width, height, format) twice never rebuilds
    let mut pc = PixelConverter::new();
    let g = FrameGeometry { width: 640, height: 480, pixel_format: YUV420P };
    assert_eq!(pc.prepare(g), ContextAction::Recreate);
    assert_eq!(pc.prepare(g), ContextAction::Reuse);
    assert_eq!(pc.prepare(g), ContextAction::Reuse);
}

#[test]
fn any_changed_component_rebuilds_the_context() {
    let g = FrameGeometry { width: 640, height: 480, pixel_format: YUV420P };
    let mut pc = PixelConverter::new();
    pc.prepare(g);
    assert_eq!(
        pc.prepare(FrameGeometry { width: 320, ..g }),
        ContextAction::Recreate
    );
    let mut pc = PixelConverter::new();
    pc.prepare(g);
    assert_eq!(
        pc.prepare(FrameGeometry { height: 240, ..g }),
        ContextAction::Recreate
    );
    let mut pc = PixelConverter::new();
    pc.prepare(g);
    assert_eq!(
        pc.prepare(FrameGeometry { pixel_format: RGB24, ..g }),
        ContextAction::Recreate
    );
}

#[test]
fn rebuilding_settles_back_to_reuse() {
    let a = FrameGeometry { width: 640, height: 480, pixel_format: YUV420P };
    let b = FrameGeometry { width: 1920, height: 1080, pixel_format: RGB24 };
    let mut pc = PixelConverter::new();
    assert_eq!(pc.prepare(a), ContextAction::Recreate);
    assert_eq!(pc.prepare(b), ContextAction::Recreate);
    assert_eq!(pc.prepare(b), ContextAction::Reuse);
}

#[test]
fn buffer_grows_to_four_bytes_per_pixel() {
    let mut buf = ConvertedBuffer::new();
    assert_eq!(buf.data.len(), 0);
    buf.ensure_capacity(2, 2);
    assert_eq!(buf.data.len(), 16);
    buf.ensure_capacity(160, 120);
    assert_eq!(buf.data.len(), 160 * 120 * 4);
}

#[test]
fn buffer_never_shrinks_and_keeps_its_bytes() {
    let mut buf = ConvertedBuffer::new();
    buf.ensure_capacity(4, 2);
    assert_eq!(buf.data.len(), 32);
    for (i, b) in buf.data.iter_mut().enumerate() {
        *b = i as u8;
    }
    // a smaller frame leaves the buffer and its contents alone
    buf.ensure_capacity(1, 1);
    assert_eq!(buf.data.len(), 32);
    for (i, b) in buf.data.iter().enumerate() {
        assert_eq!(*b, i as u8);
    }
    // a larger frame keeps the stored prefix
    buf.ensure_capacity(3, 3);
    assert_eq!(buf.data.len(), 36);
    for i in 0..32 {
        assert_eq!(buf.data[i], i as u8);
    }
    assert_eq!(&buf.data[32..], &[0, 0, 0, 0]);
}
