use video_player::decode::{DecodeCommand, DecodeEvent, DecodePhase, FrameDecoder};

const VIDEO: i32 = 1;

/// Runs one full `next_frame` exchange against a scripted list of native
/// results, returning the terminal command of the exchange.
fn run_exchange(dec: &mut FrameDecoder, script: &[DecodeEvent]) -> DecodeCommand {
    let mut cmd = dec.start();
    for ev in script {
        assert!(matches!(
            cmd,
            DecodeCommand::ReadPacket | DecodeCommand::SendPacket | DecodeCommand::ReceiveFrame
        ));
        cmd = dec.step(*ev);
    }
    cmd
}

#[test]
fn one_packet_one_frame() {
    let mut dec = FrameDecoder::new(VIDEO);
    let cmd = run_exchange(
        &mut dec,
        &[
            DecodeEvent::PacketRead { stream_index: VIDEO },
            DecodeEvent::SendOk,
            DecodeEvent::FrameReady { pts: 0, width: 320, height: 240 },
        ],
    );
    assert_eq!(cmd, DecodeCommand::EmitFrame { pts: 0, width: 320, height: 240 });
    assert_eq!(dec.phase, DecodePhase::AwaitPacket);
}

#[test]
fn packets_of_other_streams_are_discarded() {
    let mut dec = FrameDecoder::new(VIDEO);
    let cmd = run_exchange(
        &mut dec,
        &[
            DecodeEvent::PacketRead { stream_index: 0 },
            DecodeEvent::PacketRead { stream_index: 2 },
            DecodeEvent::PacketRead { stream_index: VIDEO },
            DecodeEvent::SendOk,
            DecodeEvent::FrameReady { pts: 7, width: 320, height: 240 },
        ],
    );
    assert_eq!(cmd, DecodeCommand::EmitFrame { pts: 7, width: 320, height: 240 });
}

#[test]
fn need_more_input_keeps_reading() {
    // B-frame style buffering: two packets go in before a frame comes out
    let mut dec = FrameDecoder::new(VIDEO);
    let cmd = run_exchange(
        &mut dec,
        &[
            DecodeEvent::PacketRead { stream_index: VIDEO },
            DecodeEvent::SendOk,
            DecodeEvent::NeedMoreInput,
            DecodeEvent::PacketRead { stream_index: VIDEO },
            DecodeEvent::SendOk,
            DecodeEvent::FrameReady { pts: 3, width: 64, height: 64 },
        ],
    );
    assert_eq!(cmd, DecodeCommand::EmitFrame { pts: 3, width: 64, height: 64 });
}

#[test]
fn exhausted_input_is_end_of_stream() {
    let mut dec = FrameDecoder::new(VIDEO);
    let cmd = run_exchange(&mut dec, &[DecodeEvent::InputExhausted]);
    assert_eq!(cmd, DecodeCommand::EmitEndOfStream);
    assert_eq!(dec.phase, DecodePhase::Finished);
}

#[test]
fn send_failure_is_an_error() {
    let mut dec = FrameDecoder::new(VIDEO);
    let cmd = run_exchange(
        &mut dec,
        &[DecodeEvent::PacketRead { stream_index: VIDEO }, DecodeEvent::SendFailed],
    );
    assert_eq!(cmd, DecodeCommand::EmitError);
    assert_eq!(dec.phase, DecodePhase::Finished);
}

#[test]
fn receive_failure_is_an_error() {
    let mut dec = FrameDecoder::new(VIDEO);
    let cmd = run_exchange(
        &mut dec,
        &[
            DecodeEvent::PacketRead { stream_index: VIDEO },
            DecodeEvent::SendOk,
            DecodeEvent::ReceiveFailed,
        ],
    );
    assert_eq!(cmd, DecodeCommand::EmitError);
}

#[test]
fn twenty_frame_stream_ends_on_the_twenty_first_call() {
    // a 2-second, 10 fps stream: 20 packets, one frame each; the call after
    // the twentieth yields end of stream
    let mut dec = FrameDecoder::new(VIDEO);
    for pts in 0..20 {
        let cmd = run_exchange(
            &mut dec,
            &[
                DecodeEvent::PacketRead { stream_index: VIDEO },
                DecodeEvent::SendOk,
                DecodeEvent::FrameReady { pts, width: 160, height: 120 },
            ],
        );
        assert_eq!(cmd, DecodeCommand::EmitFrame { pts, width: 160, height: 120 });
    }
    let cmd = run_exchange(&mut dec, &[DecodeEvent::InputExhausted]);
    assert_eq!(cmd, DecodeCommand::EmitEndOfStream);
}
