use vstd::prelude::*;

use crate::errors::{SongbirdError, TrackError};
use crate::events::Event;
use crate::track::{LoopState, PlayMode, Track, TrackState};

verus! {

/// The metadata of a stream, as far as its opener reported it.
///
/// Times and durations are whole milliseconds.
#[derive(Clone, PartialEq, Debug)]
pub struct Metadata {
    /// The name of the track.
    pub track: Option<String>,
    /// The main artist of the track.
    pub artist: Option<String>,
    /// The date of creation of the stream.
    pub date: Option<String>,
    /// The number of audio channels; any number above one is stereo.
    pub channels: Option<u8>,
    /// The hosting channel of the stream.
    pub channel: Option<String>,
    /// The time at which playback starts, in milliseconds.
    pub start_time_ms: Option<u64>,
    /// The duration of the track, in milliseconds.
    pub duration_ms: Option<u64>,
    /// The sample rate of the track.
    pub sample_rate: Option<u32>,
    /// The source URL of the stream.
    pub source_url: Option<String>,
    /// The title of the track.
    pub title: Option<String>,
    /// The thumbnail URL of the stream.
    pub thumbnail: Option<String>,
}

impl Metadata {
    /// Metadata with every field unknown.
    pub open spec fn empty_spec() -> Metadata {
        Metadata {
            track: None,
            artist: None,
            date: None,
            channels: None,
            channel: None,
            start_time_ms: None,
            duration_ms: None,
            sample_rate: None,
            source_url: None,
            title: None,
            thumbnail: None,
        }
    }

    /// Builds metadata with every field unknown.
    pub fn empty() -> (m: Metadata)
        ensures
            m == Metadata::empty_spec(),
    {
        Metadata {
            track: None,
            artist: None,
            date: None,
            channels: None,
            channel: None,
            start_time_ms: None,
            duration_ms: None,
            sample_rate: None,
            source_url: None,
            title: None,
            thumbnail: None,
        }
    }

    /// Builds metadata from every field.
    pub fn new(
        track: Option<String>,
        artist: Option<String>,
        channel: Option<String>,
        channels: Option<u8>,
        date: Option<String>,
        duration_ms: Option<u64>,
        sample_rate: Option<u32>,
        source_url: Option<String>,
        start_time_ms: Option<u64>,
        thumbnail: Option<String>,
        title: Option<String>,
    ) -> (m: Metadata)
        ensures
            m == (Metadata {
                track,
                artist,
                date,
                channels,
                channel,
                start_time_ms,
                duration_ms,
                sample_rate,
                source_url,
                title,
                thumbnail,
            }),
    {
        Metadata {
            track,
            artist,
            date,
            channels,
            channel,
            start_time_ms,
            duration_ms,
            sample_rate,
            source_url,
            title,
            thumbnail,
        }
    }
}

/// A remote control command, sent over the driver's command channel to the
/// live track it addresses.
#[derive(Clone, PartialEq, Debug)]
pub enum TrackCommand {
    /// Request the playing state.
    Play,
    /// Request the paused state.
    Pause,
    /// Request the stopped state; final.
    Stop,
    /// Replace the volume, in parts per thousand of unity gain.
    Volume { volume_permille: u32 },
    /// Seek to a position, in milliseconds.
    Seek { position_ms: u64 },
    /// Attach an event listener to the track.
    AddEvent { selector: Event },
    /// Replace the loop state.
    Loop { loops: LoopState },
    /// Ready a lazily initialised track.
    MakePlayable,
    /// Request a snapshot of the track state.
    Request,
}

/// A freely shareable handle controlling an already-registered track.
///
/// A handle does not touch the track directly: each control call decides on
/// a `TrackCommand`, which the driver's worker context applies to the live
/// track (`apply_command` states how). Immutable properties of the stream
/// (identity, seekability, metadata) are carried in the handle itself.
#[derive(Clone, PartialEq, Debug)]
pub struct TrackHandle {
    /// Unique identifier of the track this handle controls.
    pub uuid: u128,
    /// Whether the underlying input supports seeking.
    pub seekable: bool,
    /// Metadata of the underlying stream.
    pub metadata: Metadata,
}

impl TrackHandle {
    /// Requests playback.
    pub fn play(&self) -> (c: TrackCommand)
        ensures
            c == TrackCommand::Play,
    {
        TrackCommand::Play
    }

    /// Requests a pause.
    pub fn pause(&self) -> (c: TrackCommand)
        ensures
            c == TrackCommand::Pause,
    {
        TrackCommand::Pause
    }

    /// Requests a stop. A track stopped this way cannot be restarted; the
    /// command is deliberately distinct from `pause`.
    pub fn stop(&self) -> (c: TrackCommand)
        ensures
            c == TrackCommand::Stop,
    {
        TrackCommand::Stop
    }

    /// Requests a volume change, in parts per thousand of unity gain.
    pub fn set_volume(&self, volume_permille: u32) -> (c: TrackCommand)
        ensures
            c == (TrackCommand::Volume { volume_permille }),
    {
        TrackCommand::Volume { volume_permille }
    }

    /// Requests that a lazily initialised track be readied.
    pub fn make_playable(&self) -> (c: TrackCommand)
        ensures
            c == TrackCommand::MakePlayable,
    {
        TrackCommand::MakePlayable
    }

    /// Decides whether the underlying input supports seeking.
    pub fn is_seekable(&self) -> (r: bool)
        ensures
            r == self.seekable,
    {
        self.seekable
    }

    /// Requests a seek. Fails with `SeekUnsupported` when the input cannot
    /// seek, and with `SeekOutOfBounds` when the target lies beyond the
    /// duration the metadata reports.
    pub fn seek_time(&self, position_ms: u64) -> (r: Result<TrackCommand, SongbirdError>)
        ensures
            !self.seekable ==> r == Err::<TrackCommand, SongbirdError>(
                SongbirdError::Track { err: TrackError::SeekUnsupported },
            ),
            self.seekable && (self.metadata.duration_ms matches Some(d) && position_ms > d)
                ==> r == Err::<TrackCommand, SongbirdError>(
                SongbirdError::Track { err: TrackError::SeekOutOfBounds },
            ),
            self.seekable && !(self.metadata.duration_ms matches Some(d) && position_ms > d)
                ==> r == Ok::<TrackCommand, SongbirdError>(TrackCommand::Seek { position_ms }),
    {
        if !self.seekable {
            Err(SongbirdError::Track { err: TrackError::SeekUnsupported })
        } else {
            let out_of_bounds: bool = match self.metadata.duration_ms {
                Option::Some(d) => position_ms > d,
                Option::None => false,
            };
            if out_of_bounds {
                Err(SongbirdError::Track { err: TrackError::SeekOutOfBounds })
            } else {
                Ok(TrackCommand::Seek { position_ms })
            }
        }
    }

    /// Requests attachment of an event listener. Selectors that only the
    /// driver as a whole can fire are refused with `InvalidTrackEvent`.
    pub fn add_event(&self, selector: Event) -> (r: Result<TrackCommand, SongbirdError>)
        ensures
            selector.is_global_only_spec() ==> r == Err::<TrackCommand, SongbirdError>(
                SongbirdError::Track { err: TrackError::InvalidTrackEvent },
            ),
            !selector.is_global_only_spec() ==> r == Ok::<TrackCommand, SongbirdError>(
                TrackCommand::AddEvent { selector },
            ),
    {
        if selector.is_global_only() {
            Err(SongbirdError::Track { err: TrackError::InvalidTrackEvent })
        } else {
            Ok(TrackCommand::AddEvent { selector })
        }
    }

    /// Requests a snapshot of the live track state; the driver answers with
    /// the state the `Request` command observed.
    pub fn get_info(&self) -> (c: TrackCommand)
        ensures
            c == TrackCommand::Request,
    {
        TrackCommand::Request
    }

    /// Requests indefinite looping. Fails with `SeekUnsupported` when the
    /// input cannot seek back to its start.
    pub fn enable_loop(&self) -> (r: Result<TrackCommand, SongbirdError>)
        ensures
            !self.seekable ==> r == Err::<TrackCommand, SongbirdError>(
                SongbirdError::Track { err: TrackError::SeekUnsupported },
            ),
            self.seekable ==> r == Ok::<TrackCommand, SongbirdError>(
                TrackCommand::Loop { loops: LoopState::Infinite },
            ),
    {
        if self.seekable {
            Ok(TrackCommand::Loop { loops: LoopState::Infinite })
        } else {
            Err(SongbirdError::Track { err: TrackError::SeekUnsupported })
        }
    }

    /// Requests that the track no longer loop. Fails with `SeekUnsupported`
    /// when the input cannot seek.
    pub fn disable_loop(&self) -> (r: Result<TrackCommand, SongbirdError>)
        ensures
            !self.seekable ==> r == Err::<TrackCommand, SongbirdError>(
                SongbirdError::Track { err: TrackError::SeekUnsupported },
            ),
            self.seekable ==> r == Ok::<TrackCommand, SongbirdError>(
                TrackCommand::Loop { loops: LoopState::Finite { remaining: 0 } },
            ),
    {
        if self.seekable {
            Ok(TrackCommand::Loop { loops: LoopState::Finite { remaining: 0 } })
        } else {
            Err(SongbirdError::Track { err: TrackError::SeekUnsupported })
        }
    }

    /// Requests looping a set number of further times. Fails with
    /// `SeekUnsupported` when the input cannot seek.
    pub fn loop_for(&self, count: usize) -> (r: Result<TrackCommand, SongbirdError>)
        ensures
            !self.seekable ==> r == Err::<TrackCommand, SongbirdError>(
                SongbirdError::Track { err: TrackError::SeekUnsupported },
            ),
            self.seekable ==> r == Ok::<TrackCommand, SongbirdError>(
                TrackCommand::Loop { loops: LoopState::Finite { remaining: count } },
            ),
    {
        if self.seekable {
            Ok(TrackCommand::Loop { loops: LoopState::Finite { remaining: count } })
        } else {
            Err(SongbirdError::Track { err: TrackError::SeekUnsupported })
        }
    }

    /// Reads the unique identifier of the track.
    pub fn uuid(&self) -> (r: u128)
        ensures
            r == self.uuid,
    {
        self.uuid
    }

    /// Reads the metadata of the underlying stream.
    pub fn metadata(&self) -> (m: &Metadata)
        ensures
            m == self.metadata,
    {
        &self.metadata
    }
}

/// Applies a handle command to the live track it addresses, in the
/// driver's worker context. Commands arrive here in the order the handles
/// sent them, one at a time; state-changing commands report their verdict,
/// which the worker context logs rather than returns to the caller.
pub fn apply_command(t: &mut Track, cmd: &TrackCommand) -> (r: Result<(), SongbirdError>)
    ensures
        cmd == TrackCommand::Play ==> r == Ok::<(), SongbirdError>(())
            && *final(t) == (Track {
                state: (TrackState {
                    playing: old(t).state.playing.change_to_spec(PlayMode::Play),
                    ..old(t).state
                }),
                ..*old(t)
            }),
        cmd == TrackCommand::Pause ==> r == Ok::<(), SongbirdError>(())
            && *final(t) == (Track {
                state: (TrackState {
                    playing: old(t).state.playing.change_to_spec(PlayMode::Pause),
                    ..old(t).state
                }),
                ..*old(t)
            }),
        cmd == TrackCommand::Stop ==> r == Ok::<(), SongbirdError>(())
            && *final(t) == (Track {
                state: (TrackState {
                    playing: old(t).state.playing.change_to_spec(PlayMode::Stop),
                    ..old(t).state
                }),
                ..*old(t)
            }),
        *cmd matches TrackCommand::Volume { volume_permille } ==> r == Ok::<(), SongbirdError>(())
            && *final(t) == (Track {
                state: (TrackState { volume_permille, ..old(t).state }),
                ..*old(t)
            }),
        *cmd matches TrackCommand::Seek { position_ms } ==> ({
            &&& !old(t).seekable ==> r == Err::<(), SongbirdError>(
                SongbirdError::Track { err: TrackError::SeekUnsupported },
            ) && *final(t) == *old(t)
            &&& old(t).seekable && (old(t).duration_ms matches Some(d) && position_ms > d)
                ==> r == Err::<(), SongbirdError>(
                SongbirdError::Track { err: TrackError::SeekOutOfBounds },
            ) && *final(t) == *old(t)
            &&& old(t).seekable && !(old(t).duration_ms matches Some(d) && position_ms > d)
                ==> r == Ok::<(), SongbirdError>(())
                && *final(t) == (Track {
                    state: (TrackState { position_ms, ..old(t).state }),
                    ..*old(t)
                })
        }),
        *cmd matches TrackCommand::Loop { loops } ==> ({
            &&& !old(t).seekable ==> r == Err::<(), SongbirdError>(
                SongbirdError::Track { err: TrackError::SeekUnsupported },
            ) && *final(t) == *old(t)
            &&& old(t).seekable ==> r == Ok::<(), SongbirdError>(())
                && *final(t) == (Track {
                    state: (TrackState { loops, ..old(t).state }),
                    ..*old(t)
                })
        }),
        *cmd matches TrackCommand::AddEvent { .. } ==> r == Ok::<(), SongbirdError>(())
            && *final(t) == *old(t),
        cmd == TrackCommand::MakePlayable ==> r == Ok::<(), SongbirdError>(())
            && *final(t) == *old(t),
        cmd == TrackCommand::Request ==> r == Ok::<(), SongbirdError>(())
            && *final(t) == *old(t),
{
    match cmd {
        TrackCommand::Play => {
            t.state.playing = t.state.playing.change_to(PlayMode::Play);
            Ok(())
        },
        TrackCommand::Pause => {
            t.state.playing = t.state.playing.change_to(PlayMode::Pause);
            Ok(())
        },
        TrackCommand::Stop => {
            t.state.playing = t.state.playing.change_to(PlayMode::Stop);
            Ok(())
        },
        TrackCommand::Volume { volume_permille } => {
            t.state.volume_permille = *volume_permille;
            Ok(())
        },
        TrackCommand::Seek { position_ms } => {
            if !t.seekable {
                Err(SongbirdError::Track { err: TrackError::SeekUnsupported })
            } else {
                let out_of_bounds: bool = match t.duration_ms {
                    Option::Some(d) => *position_ms > d,
                    Option::None => false,
                };
                if out_of_bounds {
                    Err(SongbirdError::Track { err: TrackError::SeekOutOfBounds })
                } else {
                    t.state.position_ms = *position_ms;
                    Ok(())
                }
            }
        },
        TrackCommand::Loop { loops } => {
            if !t.seekable {
                Err(SongbirdError::Track { err: TrackError::SeekUnsupported })
            } else {
                t.state.loops = *loops;
                Ok(())
            }
        },
        TrackCommand::AddEvent { .. } => Ok(()),
        TrackCommand::MakePlayable => Ok(()),
        TrackCommand::Request => Ok(()),
    }
}

} // verus!
