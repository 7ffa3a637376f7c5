use vstd::prelude::*;

verus! {

/// Errors raised by track control operations.
///
/// `Finished`, `InvalidTrackEvent` and `SeekUnsupported` mirror the verdicts
/// the underlying voice driver gives on a live track; `SeekOutOfBounds` is
/// raised by this library when a seek target lies beyond the known duration
/// of the track, instead of handing the driver a position it cannot honour.
#[derive(Clone, Copy, PartialEq, Eq, Structural, Debug)]
pub enum TrackError {
    /// The track has ended or been removed, so the command cannot be applied.
    Finished,
    /// The supplied event listener can never be fired by a track.
    InvalidTrackEvent,
    /// The track's input does not support seeking, so seeks and loops fail.
    SeekUnsupported,
    /// The seek target lies beyond the duration of the track.
    SeekOutOfBounds,
}

/// The error taxonomy of the binding layer.
///
/// Every fallible operation of this library reports one of these; the host
/// boundary maps each variant onto its exception hierarchy. String payloads
/// carry the diagnostic text of the underlying failure.
#[derive(Clone, PartialEq, Eq, Debug)]
pub enum SongbirdError {
    /// A synchronous constructor was called on a type that only the
    /// asynchronous factory may build.
    UseAsyncConstructor,
    /// The underlying voice connection attempt was rejected.
    CouldNotConnectToRTP { detail: String },
    /// A one-shot source or track was handed to the driver a second time.
    ConsumedSource,
    /// A file path could not be opened for playback.
    CouldNotOpenFile { detail: String },
    /// The URL downloader failed to produce a stream.
    Ytdl { detail: String },
    /// The external decoder invocation failed.
    Ffmpeg { detail: String },
    /// A control operation on a track was refused.
    Track { err: TrackError },
    /// An event selector outside the supported set was used for registration.
    UnsupportedEvent,
}

impl SongbirdError {
    /// Whether this error reports a refused track operation.
    pub fn is_track_error(&self) -> (r: bool)
        ensures
            r == (*self matches SongbirdError::Track { .. }),
    {
        match self {
            SongbirdError::Track { .. } => true,
            _ => false,
        }
    }
}

} // verus!
