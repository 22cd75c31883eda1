//! The decisions of the decode loop for one track.
//!
//! Whoever drives the loop reads packets from the container, decodes them
//! and talks to the sink; after each of those it hands the outcome to
//! `DecodeLoop::step`, which says what to do next. The loop never aborts on
//! a malformed packet, opens the sink lazily on the first buffer that
//! decodes, with that buffer's signal spec, and tells the expected end of
//! the stream apart from a failure.
use vstd::prelude::*;

use crate::error::{AudioOutputError, SinkError};

verus! {

/// The kind of an I/O error, as far as the loop needs it.
#[derive(Debug, Clone, Copy, PartialEq, Eq, Structural)]
pub enum IoErrorKind {
    UnexpectedEof,
    Other,
}

/// An error reported while reading or decoding the stream.
#[derive(Debug)]
pub enum StreamError {
    /// Reading the stream failed; `message` is the error's text.
    Io { kind: IoErrorKind, message: String },
    /// The packet was malformed and could not be decoded.
    Decode,
    /// The stream could not be seeked.
    Seek,
    /// A feature of the container or codec is not supported.
    Unsupported,
    /// A limit on the stream was reached.
    Limit,
    /// The demuxer or decoder would have to be rebuilt to go on.
    ResetRequired,
}

/// How a track ended.
#[derive(Debug, Clone, Copy, PartialEq, Eq, Structural)]
pub enum TrackOutcome {
    /// The stream ran to its end.
    Completed,
    /// The track could not be played to its end; later tracks are unaffected.
    Failed(SinkError),
    /// The output device failed; playback cannot go on.
    DeviceFailed(AudioOutputError),
}

/// What happened at the last thing the loop was told to do.
#[derive(Debug)]
pub enum LoopEvent {
    /// A packet was read; it belongs to the stream `track_id`.
    PacketRead { track_id: u32 },
    /// Reading the next packet failed.
    ReadFailed(StreamError),
    /// The packet decoded to a buffer of `frames` frames.
    Decoded { frames: u64 },
    /// Decoding the packet failed.
    DecodeFailed(StreamError),
    /// The sink could not be opened, or refused a buffer.
    OutputFailed(AudioOutputError),
}

/// What to do next.
#[derive(Debug, Clone, Copy, PartialEq, Eq, Structural)]
pub enum LoopAction {
    /// Read the next packet.
    ReadPacket,
    /// Decode the packet just read.
    DecodePacket,
    /// Open a sink for the decoded buffer's signal spec, then write the buffer.
    OpenSink,
    /// Write the decoded buffer to the open sink.
    WriteBuffer,
    /// Stop; flush the sink first where `flush` is set.
    Finish { flush: bool, outcome: TrackOutcome },
}

/// The decode loop as a mathematical value.
pub struct LoopModel {
    pub track_id: u32,
    pub sink_open: bool,
    pub outcome: Option<TrackOutcome>,
}

/// The text of the error with which a stream reports its end.
pub open spec fn end_of_stream_text() -> Seq<char> {
    "end of stream"@
}

/// The expected end of a stream: an unexpected-end-of-input I/O error that
/// says the stream is exhausted.
pub open spec fn is_end_of_stream(e: StreamError) -> bool {
    e matches StreamError::Io { kind, message } && kind == IoErrorKind::UnexpectedEof
        && message@ == end_of_stream_text()
}

/// How a loop stopped by `e` ended.
pub open spec fn outcome_of(e: StreamError) -> TrackOutcome {
    if is_end_of_stream(e) {
        TrackOutcome::Completed
    } else {
        TrackOutcome::Failed(SinkError::UnrecoverableError)
    }
}

/// Stop with `outcome`, flushing the sink if one is open.
pub open spec fn finish(m: LoopModel, outcome: TrackOutcome) -> (LoopModel, LoopAction) {
    (
        LoopModel { outcome: Some(outcome), ..m },
        LoopAction::Finish { flush: m.sink_open, outcome },
    )
}

/// One step of the loop.
pub open spec fn next(m: LoopModel, ev: LoopEvent) -> (LoopModel, LoopAction) {
    match m.outcome {
        Some(o) => (m, LoopAction::Finish { flush: false, outcome: o }),
        None => match ev {
            LoopEvent::PacketRead { track_id } => if track_id == m.track_id {
                (m, LoopAction::DecodePacket)
            } else {
                (m, LoopAction::ReadPacket)
            },
            LoopEvent::Decoded { frames } => if !m.sink_open {
                (LoopModel { sink_open: true, ..m }, LoopAction::OpenSink)
            } else if frames == 0 {
                (m, LoopAction::ReadPacket)
            } else {
                (m, LoopAction::WriteBuffer)
            },
            LoopEvent::DecodeFailed(e) => if e is Decode {
                (m, LoopAction::ReadPacket)
            } else {
                finish(m, outcome_of(e))
            },
            LoopEvent::ReadFailed(e) => finish(m, outcome_of(e)),
            LoopEvent::OutputFailed(e) => finish(
                LoopModel { sink_open: false, ..m },
                TrackOutcome::DeviceFailed(e),
            ),
        },
    }
}

/// The state of the decode loop of one track.
pub struct DecodeLoop {
    track_id: u32,
    sink_open: bool,
    outcome: Option<TrackOutcome>,
}

impl View for DecodeLoop {
    type V = LoopModel;

    closed spec fn view(&self) -> LoopModel {
        LoopModel { track_id: self.track_id, sink_open: self.sink_open, outcome: self.outcome }
    }
}

/// Whether `e` marks the expected end of the stream.
pub fn is_end_of_stream_error(e: &StreamError) -> (r: bool)
    ensures
        r == is_end_of_stream(*e),
{
    match e {
        StreamError::Io { kind: IoErrorKind::UnexpectedEof, message } => {
            let end = String::from_str("end of stream");
            *message == end
        },
        _ => false,
    }
}

/// How a loop stopped by `e` ended: the end of the stream completes the
/// track, anything else fails it.
pub fn classify(e: &StreamError) -> (r: TrackOutcome)
    ensures
        r == outcome_of(*e),
        r == TrackOutcome::Completed || r == TrackOutcome::Failed(SinkError::UnrecoverableError),
{
    if is_end_of_stream_error(e) {
        TrackOutcome::Completed
    } else {
        TrackOutcome::Failed(SinkError::UnrecoverableError)
    }
}

impl DecodeLoop {
    /// Starts the loop on the container's default track. Fails when the
    /// container declares none, or when no decoder exists for its codec.
    pub fn new(default_track: Option<u32>, decoder_available: bool) -> (r: Result<
        DecodeLoop,
        SinkError,
    >)
        ensures
            match default_track {
                None => r == Err::<DecodeLoop, SinkError>(SinkError::NoDefaultTrack),
                Some(id) => if decoder_available {
                    r matches Ok(l) && l@ == (LoopModel {
                        track_id: id,
                        sink_open: false,
                        outcome: None,
                    })
                } else {
                    r == Err::<DecodeLoop, SinkError>(SinkError::UnsupportedCodec)
                },
            },
    {
        match default_track {
            None => Err(SinkError::NoDefaultTrack),
            Some(id) => if decoder_available {
                Ok(DecodeLoop { track_id: id, sink_open: false, outcome: None })
            } else {
                Err(SinkError::UnsupportedCodec)
            },
        }
    }

    /// Takes what happened and says what to do next.
    pub fn step(&mut self, ev: LoopEvent) -> (r: LoopAction)
        ensures
            (final(self)@, r) == next(old(self)@, ev),
    {
        if let Some(o) = self.outcome {
            return LoopAction::Finish { flush: false, outcome: o };
        }
        match ev {
            LoopEvent::PacketRead { track_id } => {
                if track_id == self.track_id {
                    LoopAction::DecodePacket
                } else {
                    LoopAction::ReadPacket
                }
            },
            LoopEvent::Decoded { frames } => {
                if !self.sink_open {
                    self.sink_open = true;
                    LoopAction::OpenSink
                } else if frames == 0 {
                    LoopAction::ReadPacket
                } else {
                    LoopAction::WriteBuffer
                }
            },
            LoopEvent::DecodeFailed(e) => {
                match e {
                    StreamError::Decode => LoopAction::ReadPacket,
                    _ => self.stop(classify(&e)),
                }
            },
            LoopEvent::ReadFailed(e) => self.stop(classify(&e)),
            LoopEvent::OutputFailed(e) => {
                self.sink_open = false;
                self.stop(TrackOutcome::DeviceFailed(e))
            },
        }
    }

    fn stop(&mut self, outcome: TrackOutcome) -> (r: LoopAction)
        ensures
            (final(self)@, r) == finish(old(self)@, outcome),
    {
        self.outcome = Some(outcome);
        LoopAction::Finish { flush: self.sink_open, outcome }
    }

    /// The stream whose packets are decoded.
    pub fn track_id(&self) -> (r: u32)
        ensures
            r == self@.track_id,
    {
        self.track_id
    }

    /// Whether a sink was opened and not lost since.
    pub fn sink_open(&self) -> (r: bool)
        ensures
            r == self@.sink_open,
    {
        self.sink_open
    }

    /// How the track ended, once it has.
    pub fn outcome(&self) -> (r: Option<TrackOutcome>)
        ensures
            r == self@.outcome,
    {
        self.outcome
    }
}

/// What the loop does with the packets of its own stream, in order: each
/// is `Some(frames)` where it decoded, `None` where it was malformed. The
/// result is the loop afterwards and, per packet, the action that followed
/// its decoding.
pub open spec fn run_packets(m: LoopModel, packets: Seq<Option<u64>>) -> (LoopModel, Seq<LoopAction>)
    decreases packets.len(),
{
    if packets.len() == 0 {
        (m, Seq::empty())
    } else {
        let read = next(m, LoopEvent::PacketRead { track_id: m.track_id });
        let ev = match packets[0] {
            Some(frames) => LoopEvent::Decoded { frames },
            None => LoopEvent::DecodeFailed(StreamError::Decode),
        };
        let decoded = next(read.0, ev);
        let rest = run_packets(decoded.0, packets.drop_first());
        (rest.0, seq![decoded.1].add(rest.1))
    }
}

/// Whether a sink is open when packet `k` decodes: it was open at the
/// start, or an earlier packet decoded.
pub open spec fn opened_before(open: bool, packets: Seq<Option<u64>>, k: int) -> bool {
    open || exists|j: int| 0 <= j < k && (#[trigger] packets[j]) is Some
}

/// The action that follows packet `k`: a malformed packet is dropped; the
/// first packet that decodes opens the sink and is written to it; every
/// later one is written, a buffer of no frames being nothing to write.
pub open spec fn packet_action(open: bool, packets: Seq<Option<u64>>, k: int) -> LoopAction {
    match packets[k] {
        None => LoopAction::ReadPacket,
        Some(frames) => if !opened_before(open, packets, k) {
            LoopAction::OpenSink
        } else if frames == 0 {
            LoopAction::ReadPacket
        } else {
            LoopAction::WriteBuffer
        },
    }
}

/// Malformed packets never stop the loop: each is dropped alone, the first
/// packet that decodes opens the sink and is written, every later buffer
/// that holds audio is written, in order, and the loop is still running
/// afterwards.
pub proof fn lemma_bad_packets_skipped(m: LoopModel, packets: Seq<Option<u64>>)
    requires
        m.outcome.is_none(),
    ensures
        run_packets(m, packets).0.outcome.is_none(),
        run_packets(m, packets).0.track_id == m.track_id,
        run_packets(m, packets).0.sink_open == opened_before(
            m.sink_open,
            packets,
            packets.len() as int,
        ),
        run_packets(m, packets).1.len() == packets.len(),
        forall|k: int|
            0 <= k < packets.len() ==> #[trigger] run_packets(m, packets).1[k] == packet_action(
                m.sink_open,
                packets,
                k,
            ),
    decreases packets.len(),
{
    if packets.len() > 0 {
        let read = next(m, LoopEvent::PacketRead { track_id: m.track_id });
        let ev = match packets[0] {
            Some(frames) => LoopEvent::Decoded { frames },
            None => LoopEvent::DecodeFailed(StreamError::Decode),
        };
        let decoded = next(read.0, ev);
        let tail = packets.drop_first();
        let m2 = decoded.0;
        lemma_bad_packets_skipped(m2, tail);
        assert(m2.sink_open == (m.sink_open || packets[0] is Some));
        let r = run_packets(m, packets);
        assert forall|k: int| 0 <= k <= packets.len() implies #[trigger] opened_before(
            m.sink_open,
            packets,
            k,
        ) == (k == 0 && m.sink_open || k > 0 && opened_before(m2.sink_open, tail, k - 1)) by {
            if k > 0 {
                if opened_before(m.sink_open, packets, k) && !m.sink_open && !(packets[0] is Some) {
                    let j = choose|j: int| 0 <= j < k && (#[trigger] packets[j]) is Some;
                    assert(tail[j - 1] == packets[j]);
                }
                if opened_before(m2.sink_open, tail, k - 1) && !m2.sink_open {
                    let j = choose|j: int| 0 <= j < k - 1 && (#[trigger] tail[j]) is Some;
                    assert(packets[j + 1] == tail[j]);
                }
            }
        }
        assert forall|k: int| 0 <= k < packets.len() implies #[trigger] r.1[k] == packet_action(
            m.sink_open,
            packets,
            k,
        ) by {
            if k > 0 {
                assert(packets[k] == tail[k - 1]);
                assert(r.1[k] == run_packets(m2, tail).1[k - 1]);
                assert(opened_before(m.sink_open, packets, k) == opened_before(
                    m2.sink_open,
                    tail,
                    k - 1,
                ));
            } else {
                assert(opened_before(m.sink_open, packets, 0) == m.sink_open);
            }
        }
        assert(opened_before(m.sink_open, packets, packets.len() as int) == opened_before(
            m2.sink_open,
            tail,
            tail.len() as int,
        ));
    }
}

/// A loop that reads the expected end of its stream has completed its
/// track; it flushes the sink where one was opened.
pub proof fn lemma_end_of_stream_completes(m: LoopModel, message: String)
    requires
        m.outcome.is_none(),
        message@ == end_of_stream_text(),
    ensures
        next(m, LoopEvent::ReadFailed(StreamError::Io { kind: IoErrorKind::UnexpectedEof, message })).1
            == (LoopAction::Finish { flush: m.sink_open, outcome: TrackOutcome::Completed }),
{
}

/// Any other error that ends the read fails the track, and only the track.
pub proof fn lemma_other_errors_fail_track(m: LoopModel, e: StreamError)
    requires
        m.outcome.is_none(),
        !is_end_of_stream(e),
    ensures
        next(m, LoopEvent::ReadFailed(e)).1 == (LoopAction::Finish {
            flush: m.sink_open,
            outcome: TrackOutcome::Failed(SinkError::UnrecoverableError),
        }),
{
}

} // verus!
