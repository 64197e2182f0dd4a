//! The frame decoder's control loop, verified as a state machine.
//!
//! Producing one decoded frame is a dialogue with the native demuxer and
//! decoder: read the next packet, discard it if it belongs to another
//! stream, submit it, poll for a completed frame, and keep reading when the
//! decoder asks for more input. The native calls happen outside this crate;
//! the embedding program reports each result as a [`DecodeEvent`] and
//! performs the [`DecodeCommand`] it gets back. Every decision of the loop
//! — what is discarded, what counts as an error, and when the stream is
//! exhausted — is made and verified here.

use vstd::prelude::*;

verus! {

/// Where the decode loop stands between two native calls.
#[derive(Clone, Copy, Debug, PartialEq, Eq, Structural)]
pub enum DecodePhase {
    /// The next step is to read a packet from the container.
    AwaitPacket,
    /// A packet of the selected stream is in hand, to be sent to the
    /// decoder.
    AwaitSend,
    /// The decoder holds submitted input and is to be polled for a frame.
    AwaitReceive,
    /// Terminal: the stream is exhausted or decoding failed. No further
    /// event is accepted.
    Finished,
}

/// The result of one native call, reported back to the loop.
#[derive(Clone, Copy, Debug, PartialEq, Eq, Structural)]
pub enum DecodeEvent {
    /// A packet was read; it belongs to the container stream with this
    /// index.
    PacketRead { stream_index: i32 },
    /// The container has no further packets.
    InputExhausted,
    /// The packet was accepted by the decoder.
    SendOk,
    /// The decoder rejected the packet.
    SendFailed,
    /// The decoder completed a frame with this timestamp and geometry.
    FrameReady { pts: i64, width: i32, height: i32 },
    /// The decoder needs more input before it can produce a frame; not an
    /// error.
    NeedMoreInput,
    /// Polling the decoder failed.
    ReceiveFailed,
}

/// The next native call to make, or the result of this `next_frame`
/// exchange.
#[derive(Clone, Copy, Debug, PartialEq, Eq, Structural)]
pub enum DecodeCommand {
    /// Read the next packet from the container.
    ReadPacket,
    /// Submit the packet in hand to the decoder.
    SendPacket,
    /// Poll the decoder for a completed frame.
    ReceiveFrame,
    /// A frame is complete: release the consumed packet's reference, then
    /// hand the frame on.
    EmitFrame { pts: i64, width: i32, height: i32 },
    /// The stream is exhausted with no further frame producible; terminal.
    EmitEndOfStream,
    /// A native decoding step failed in a way that is not "need more
    /// input"; terminal, and the packet is not retried.
    EmitError,
}

/// Which events can answer which phase.
pub open spec fn event_fits(phase: DecodePhase, event: DecodeEvent) -> bool {
    match phase {
        DecodePhase::AwaitPacket => event is PacketRead || event is InputExhausted,
        DecodePhase::AwaitSend => event is SendOk || event is SendFailed,
        DecodePhase::AwaitReceive => event is FrameReady || event is NeedMoreInput
            || event is ReceiveFailed,
        DecodePhase::Finished => false,
    }
}

/// The complete transition table of the decode loop: next phase and next
/// command for each event.
pub open spec fn decode_step(video_stream_index: i32, event: DecodeEvent) -> (DecodePhase,
    DecodeCommand) {
    match event {
        // Packets of other streams are dropped, not buffered: read on.
        DecodeEvent::PacketRead { stream_index } => if stream_index != video_stream_index {
            (DecodePhase::AwaitPacket, DecodeCommand::ReadPacket)
        } else {
            (DecodePhase::AwaitSend, DecodeCommand::SendPacket)
        },
        DecodeEvent::InputExhausted => (DecodePhase::Finished, DecodeCommand::EmitEndOfStream),
        DecodeEvent::SendOk => (DecodePhase::AwaitReceive, DecodeCommand::ReceiveFrame),
        DecodeEvent::SendFailed => (DecodePhase::Finished, DecodeCommand::EmitError),
        DecodeEvent::FrameReady { pts, width, height } => (
            DecodePhase::AwaitPacket,
            DecodeCommand::EmitFrame { pts, width, height },
        ),
        // Transient: the decoder buffered the input; continue reading.
        DecodeEvent::NeedMoreInput => (DecodePhase::AwaitPacket, DecodeCommand::ReadPacket),
        DecodeEvent::ReceiveFailed => (DecodePhase::Finished, DecodeCommand::EmitError),
    }
}

/// The decode loop for one selected video stream. Packets whose stream
/// index differs from `video_stream_index` never reach the decoder.
pub struct FrameDecoder {
    pub video_stream_index: i32,
    pub phase: DecodePhase,
}

impl FrameDecoder {
    /// A fresh decoder loop for the selected stream, about to read its
    /// first packet.
    pub fn new(video_stream_index: i32) -> (r: Self)
        ensures
            r.video_stream_index == video_stream_index,
            r.phase is AwaitPacket,
    {
        FrameDecoder { video_stream_index, phase: DecodePhase::AwaitPacket }
    }

    /// The first command of every `next_frame` exchange: read a packet.
    pub fn start(&self) -> (r: DecodeCommand)
        requires
            self.phase is AwaitPacket,
        ensures
            r is ReadPacket,
    {
        DecodeCommand::ReadPacket
    }

    /// Advances the loop by one reported native result and says what to do
    /// next. `EmitEndOfStream` and `EmitError` leave the loop in its
    /// terminal phase, which accepts no further event; `EmitFrame` leaves
    /// it ready for the next exchange.
    pub fn step(&mut self, event: DecodeEvent) -> (r: DecodeCommand)
        requires
            event_fits(old(self).phase, event),
        ensures
            final(self).video_stream_index == old(self).video_stream_index,
            (final(self).phase, r) == decode_step(old(self).video_stream_index, event),
    {
        let (phase, command) = match event {
            DecodeEvent::PacketRead { stream_index } => if stream_index
                != self.video_stream_index {
                (DecodePhase::AwaitPacket, DecodeCommand::ReadPacket)
            } else {
                (DecodePhase::AwaitSend, DecodeCommand::SendPacket)
            },
            DecodeEvent::InputExhausted => (DecodePhase::Finished, DecodeCommand::EmitEndOfStream),
            DecodeEvent::SendOk => (DecodePhase::AwaitReceive, DecodeCommand::ReceiveFrame),
            DecodeEvent::SendFailed => (DecodePhase::Finished, DecodeCommand::EmitError),
            DecodeEvent::FrameReady { pts, width, height } => (
                DecodePhase::AwaitPacket,
                DecodeCommand::EmitFrame { pts, width, height },
            ),
            DecodeEvent::NeedMoreInput => (DecodePhase::AwaitPacket, DecodeCommand::ReadPacket),
            DecodeEvent::ReceiveFailed => (DecodePhase::Finished, DecodeCommand::EmitError),
        };
        self.phase = phase;
        command
    }
}

/// Only the terminal results end an exchange: the loop keeps going — and
/// so never returns early without a frame — unless it emits a frame, end
/// of stream, or an error.
pub proof fn lemma_decode_step_continues(video_stream_index: i32, event: DecodeEvent)
    ensures
        ({
            let (phase, command) = decode_step(video_stream_index, event);
            &&& (phase is Finished <==> (command is EmitEndOfStream || command is EmitError))
            &&& (command is ReadPacket || command is SendPacket || command is ReceiveFrame
                ==> !(phase is Finished))
        }),
{
}

} // verus!
