use vstd::prelude::*;

verus! {

/// Failures of the audio output device. These make every later track
/// unplayable too, so they are reported to the caller.
#[derive(Debug, Clone, Copy, PartialEq, Eq, Structural)]
pub enum AudioOutputError {
    /// The device could not be reached, or refused the negotiated format.
    OpenStreamError,
    /// The device stopped accepting playback.
    PlayStreamError,
    /// A write to an open stream failed.
    StreamClosedError,
}

/// Failures local to one track. The queue moves on past them.
#[derive(Debug, Clone, Copy, PartialEq, Eq, Structural)]
pub enum SinkError {
    /// The path gives no usable hint for probing the container.
    ExtensionError,
    /// The container declares no default track.
    NoDefaultTrack,
    /// No decoder is available for the default track's codec.
    UnsupportedCodec,
    /// The stream failed in a way that is neither a bad packet nor its end.
    UnrecoverableError,
}

} // verus!
