use mplay::decode::{
    classify, is_end_of_stream_error, DecodeLoop, IoErrorKind, LoopAction, LoopEvent,
    StreamError, TrackOutcome,
};
use mplay::error::{AudioOutputError, SinkError};

fn end_of_stream() -> StreamError {
    StreamError::Io { kind: IoErrorKind::UnexpectedEof, message: String::from("end of stream") }
}

/// Feeds one packet of the loop's own stream; returns the action after decoding.
fn feed_packet(l: &mut DecodeLoop, decoded: Option<u64>) -> LoopAction {
    let id = l.track_id();
    assert_eq!(l.step(LoopEvent::PacketRead { track_id: id }), LoopAction::DecodePacket);
    match decoded {
        Some(frames) => l.step(LoopEvent::Decoded { frames }),
        None => l.step(LoopEvent::DecodeFailed(StreamError::Decode)),
    }
}

#[test]
fn corrupt_packet_is_dropped_alone() {
    let mut l = DecodeLoop::new(Some(1), true).unwrap();
    let packets = [Some(1152u64), Some(1152), None, Some(1152), Some(576)];
    let mut written = Vec::new();
    for (i, p) in packets.iter().enumerate() {
        let action = feed_packet(&mut l, *p);
        if action == LoopAction::OpenSink || action == LoopAction::WriteBuffer {
            written.push(i);
        }
        if i == 0 {
            assert_eq!(action, LoopAction::OpenSink);
        }
        if i == 2 {
            assert_eq!(action, LoopAction::ReadPacket);
        }
    }
    assert_eq!(written, vec![0, 1, 3, 4]);
    assert_eq!(l.outcome(), None);
    assert_eq!(
        l.step(LoopEvent::ReadFailed(end_of_stream())),
        LoopAction::Finish { flush: true, outcome: TrackOutcome::Completed }
    );
}

#[test]
fn end_of_stream_completes_track() {
    assert!(is_end_of_stream_error(&end_of_stream()));
    assert_eq!(classify(&end_of_stream()), TrackOutcome::Completed);
    let mut l = DecodeLoop::new(Some(0), true).unwrap();
    feed_packet(&mut l, Some(10));
    assert_eq!(
        l.step(LoopEvent::ReadFailed(end_of_stream())),
        LoopAction::Finish { flush: true, outcome: TrackOutcome::Completed }
    );
    assert_eq!(l.outcome(), Some(TrackOutcome::Completed));
}

#[test]
fn other_io_errors_are_fatal() {
    let wrong_message =
        StreamError::Io { kind: IoErrorKind::UnexpectedEof, message: String::from("truncated") };
    let wrong_kind =
        StreamError::Io { kind: IoErrorKind::Other, message: String::from("end of stream") };
    assert!(!is_end_of_stream_error(&wrong_message));
    assert!(!is_end_of_stream_error(&wrong_kind));
    let fatal = TrackOutcome::Failed(SinkError::UnrecoverableError);
    assert_eq!(classify(&wrong_message), fatal);
    assert_eq!(classify(&wrong_kind), fatal);
    assert_eq!(classify(&StreamError::ResetRequired), fatal);
    assert_eq!(classify(&StreamError::Unsupported), fatal);
}

#[test]
fn stream_error_ends_loop_without_sink() {
    let mut l = DecodeLoop::new(Some(3), true).unwrap();
    assert_eq!(
        l.step(LoopEvent::ReadFailed(StreamError::Limit)),
        LoopAction::Finish {
            flush: false,
            outcome: TrackOutcome::Failed(SinkError::UnrecoverableError)
        }
    );
}

#[test]
fn reset_while_decoding_fails_track() {
    let mut l = DecodeLoop::new(Some(3), true).unwrap();
    feed_packet(&mut l, Some(4));
    l.step(LoopEvent::PacketRead { track_id: 3 });
    assert_eq!(
        l.step(LoopEvent::DecodeFailed(StreamError::ResetRequired)),
        LoopAction::Finish {
            flush: true,
            outcome: TrackOutcome::Failed(SinkError::UnrecoverableError)
        }
    );
}

#[test]
fn packets_of_other_streams_are_skipped() {
    let mut l = DecodeLoop::new(Some(2), true).unwrap();
    assert_eq!(l.step(LoopEvent::PacketRead { track_id: 5 }), LoopAction::ReadPacket);
    assert_eq!(l.step(LoopEvent::PacketRead { track_id: 2 }), LoopAction::DecodePacket);
}

#[test]
fn sink_opens_once_on_first_decoded_buffer() {
    let mut l = DecodeLoop::new(Some(0), true).unwrap();
    assert_eq!(feed_packet(&mut l, None), LoopAction::ReadPacket);
    assert!(!l.sink_open());
    assert_eq!(feed_packet(&mut l, Some(0)), LoopAction::OpenSink);
    assert!(l.sink_open());
    assert_eq!(feed_packet(&mut l, Some(8)), LoopAction::WriteBuffer);
    assert_eq!(feed_packet(&mut l, Some(0)), LoopAction::ReadPacket);
    assert_eq!(feed_packet(&mut l, Some(8)), LoopAction::WriteBuffer);
}

#[test]
fn device_failure_stops_loop() {
    let mut l = DecodeLoop::new(Some(0), true).unwrap();
    feed_packet(&mut l, Some(8));
    assert_eq!(
        l.step(LoopEvent::OutputFailed(AudioOutputError::StreamClosedError)),
        LoopAction::Finish {
            flush: false,
            outcome: TrackOutcome::DeviceFailed(AudioOutputError::StreamClosedError)
        }
    );
    assert_eq!(
        l.step(LoopEvent::PacketRead { track_id: 0 }),
        LoopAction::Finish {
            flush: false,
            outcome: TrackOutcome::DeviceFailed(AudioOutputError::StreamClosedError)
        }
    );
}

#[test]
fn loop_needs_default_track_and_decoder() {
    assert_eq!(DecodeLoop::new(None, true).err(), Some(SinkError::NoDefaultTrack));
    assert_eq!(DecodeLoop::new(Some(1), false).err(), Some(SinkError::UnsupportedCodec));
    let l = DecodeLoop::new(Some(7), true).unwrap();
    assert_eq!(l.track_id(), 7);
    assert!(!l.sink_open());
    assert_eq!(l.outcome(), None);
}
