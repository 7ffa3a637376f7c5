use vstd::prelude::*;

use crate::errors::SongbirdError;

verus! {

/// What a source decodes from: a URL, a file path, an in-memory buffer, or
/// an external-decoder invocation with its argument lists.
#[derive(Clone, PartialEq, Debug)]
pub enum SourceKind {
    /// A URL resolved by the downloader.
    Ytdl { url: String },
    /// Raw samples read from a local file.
    File { path: String, stereo: bool },
    /// Raw samples held in memory.
    Bytes { data: Vec<u8>, stereo: bool },
    /// A file decoded by the external decoder, with arguments applied
    /// before and after its input.
    Ffmpeg { path: String, pre_input_args: Vec<String>, args: Vec<String> },
}

impl SourceKind {
    /// Whether a stream opened from this descriptor supports seeking:
    /// file- and memory-backed streams do, piped decoder output does not.
    pub open spec fn seekable_spec(self) -> bool {
        self is File || self is Bytes
    }

    /// Decides whether a stream opened from this descriptor supports seeking.
    pub fn seekable(&self) -> (r: bool)
        ensures
            r == self.seekable_spec(),
    {
        match self {
            SourceKind::File { .. } => true,
            SourceKind::Bytes { .. } => true,
            _ => false,
        }
    }
}

/// A not-yet-decoded audio input descriptor.
///
/// A source is a one-shot resource: it can create a track or be played in a
/// driver exactly once, and every further consumption attempt reports
/// `ConsumedSource` rather than decoding the same descriptor twice.
#[derive(Clone, PartialEq, Debug)]
pub struct Source {
    /// What this source decodes from.
    pub kind: SourceKind,
    /// Whether the source has already been used.
    pub consumed: bool,
}

impl Source {
    /// A fresh source over the given descriptor.
    pub open spec fn fresh_spec(kind: SourceKind) -> Source {
        Source { kind, consumed: false }
    }

    /// Builds a source that the downloader resolves from a URL.
    pub fn ytdl(url: String) -> (s: Source)
        ensures
            s == Source::fresh_spec(SourceKind::Ytdl { url }),
    {
        Source { kind: SourceKind::Ytdl { url }, consumed: false }
    }

    /// Builds a source over raw samples from a local file.
    pub fn file(path: String, stereo: bool) -> (s: Source)
        ensures
            s == Source::fresh_spec(SourceKind::File { path, stereo }),
    {
        Source { kind: SourceKind::File { path, stereo }, consumed: false }
    }

    /// Builds a source over raw samples held in memory.
    pub fn bytes(data: Vec<u8>, stereo: bool) -> (s: Source)
        ensures
            s == Source::fresh_spec(SourceKind::Bytes { data, stereo }),
    {
        Source { kind: SourceKind::Bytes { data, stereo }, consumed: false }
    }

    /// Builds a source decoded by the external decoder.
    pub fn ffmpeg(path: String, pre_input_args: Vec<String>, args: Vec<String>) -> (s: Source)
        ensures
            s == Source::fresh_spec(SourceKind::Ffmpeg { path, pre_input_args, args }),
    {
        Source { kind: SourceKind::Ffmpeg { path, pre_input_args, args }, consumed: false }
    }

    /// The consumption guard: fails on a source that was already used, and
    /// otherwise marks the source as used, so that at most one consumption
    /// ever succeeds.
    pub fn raise_if_consumed(&mut self) -> (r: Result<(), SongbirdError>)
        ensures
            old(self).consumed ==> r == Err::<(), SongbirdError>(SongbirdError::ConsumedSource)
                && *final(self) == *old(self),
            !old(self).consumed ==> r == Ok::<(), SongbirdError>(())
                && *final(self) == (Source { consumed: true, ..*old(self) }),
    {
        if self.consumed {
            Err(SongbirdError::ConsumedSource)
        } else {
            self.mark_consumed();
            Ok(())
        }
    }

    /// Marks the source as used.
    pub fn mark_consumed(&mut self)
        ensures
            *final(self) == (Source { consumed: true, ..*old(self) }),
    {
        self.consumed = true;
    }

    /// Decides whether a stream opened from this source supports seeking.
    pub fn seekable(&self) -> (r: bool)
        ensures
            r == self.kind.seekable_spec(),
    {
        self.kind.seekable()
    }
}

/// Whether a consumption attempt on `s` succeeds.
pub open spec fn consume_succeeds(s: Source) -> bool {
    !s.consumed
}

/// The source value left behind by a consumption attempt on `s`.
pub open spec fn after_consume(s: Source) -> Source {
    Source { consumed: true, ..s }
}

/// Law: a source is consumed at most once. Whatever source a successful
/// consumption started from, the value it leaves behind refuses every
/// further consumption attempt, so the same descriptor can never be decoded
/// or played twice.
pub proof fn lemma_source_single_use(s: Source)
    ensures
        consume_succeeds(s) ==> !consume_succeeds(after_consume(s)),
        !consume_succeeds(after_consume(after_consume(s))),
{
}

} // verus!
