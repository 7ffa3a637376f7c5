use vstd::prelude::*;

use crate::errors::{SongbirdError, TrackError};
use crate::events::TrackEvent;
use crate::source::Source;
use crate::track_handle::{Metadata, TrackHandle};

verus! {

/// Playback status of a track.
#[derive(Clone, Copy, PartialEq, Eq, Structural, Debug)]
pub enum PlayMode {
    /// The track is currently playing.
    Play,
    /// The track is currently paused, and may be resumed.
    Pause,
    /// The track has been manually stopped, and cannot be restarted.
    Stop,
    /// The track has naturally ended, and cannot be restarted.
    End,
}

impl PlayMode {
    /// The state reached when asking a track in state `self` to move to
    /// `other`: a finished track (stopped or ended) never changes again.
    pub open spec fn change_to_spec(self, other: PlayMode) -> PlayMode {
        match self {
            PlayMode::Play => other,
            PlayMode::Pause => other,
            PlayMode::Stop => PlayMode::Stop,
            PlayMode::End => PlayMode::End,
        }
    }

    /// Whether the track has irreversibly finished.
    pub open spec fn is_done_spec(self) -> bool {
        self == PlayMode::Stop || self == PlayMode::End
    }

    /// Decides whether the track has irreversibly finished.
    pub fn is_done(&self) -> (r: bool)
        ensures
            r == self.is_done_spec(),
    {
        match self {
            PlayMode::Stop => true,
            PlayMode::End => true,
            _ => false,
        }
    }
}

/// Law: stopping is final. Once a track is stopped or ended, no requested
/// state change can ever bring it back, so a finished track cannot restart
/// and can never play twice.
pub proof fn lemma_finished_is_final(mode: PlayMode, requested: PlayMode)
    requires
        mode.is_done_spec(),
    ensures
        mode.change_to_spec(requested) == mode,
{
}

/// Looping behaviour of a track.
#[derive(Clone, Copy, PartialEq, Eq, Structural, Debug)]
pub enum LoopState {
    /// The track loops endlessly until its loop state changes or it is
    /// manually stopped.
    Infinite,
    /// The track will loop `remaining` more times; zero means it ends when
    /// its input next runs out.
    Finite { remaining: usize },
}

/// Snapshot of the mutable state of a track.
///
/// Volume is carried in parts per thousand of unity gain (1000 is full
/// volume); positions and play time are whole milliseconds.
#[derive(Clone, Copy, PartialEq, Eq, Structural, Debug)]
pub struct TrackState {
    /// Play status of the track.
    pub playing: PlayMode,
    /// Current volume, in parts per thousand of unity gain.
    pub volume_permille: u32,
    /// Current playback position in the source, in milliseconds.
    pub position_ms: u64,
    /// Total playback time, increasing monotonically, in milliseconds.
    pub play_time_ms: u64,
    /// Remaining loops on the track.
    pub loops: LoopState,
}

impl TrackState {
    /// The state a freshly created track starts in: playing, full volume,
    /// at the start of its input, ending once the input runs out.
    pub open spec fn initial_spec() -> TrackState {
        TrackState {
            playing: PlayMode::Play,
            volume_permille: 1000,
            position_ms: 0,
            play_time_ms: 0,
            loops: LoopState::Finite { remaining: 0 },
        }
    }

    /// Builds the initial state of a freshly created track.
    pub fn initial() -> (s: TrackState)
        ensures
            s == TrackState::initial_spec(),
    {
        TrackState {
            playing: PlayMode::Play,
            volume_permille: 1000,
            position_ms: 0,
            play_time_ms: 0,
            loops: LoopState::Finite { remaining: 0 },
        }
    }
}

/// A track: a playable audio stream registered with, or about to be handed
/// to, the driver.
///
/// A track is a one-shot resource: handing it to a play operation consumes
/// it, and every later control call on the consumed value reports
/// `ConsumedSource` instead of acting twice on the same stream.
#[derive(Clone, Copy, PartialEq, Debug)]
pub struct Track {
    /// The mutable playback state.
    pub state: TrackState,
    /// Whether the underlying input supports seeking; unseekable tracks can
    /// neither seek nor loop.
    pub seekable: bool,
    /// Duration of the underlying input, in milliseconds, where known.
    pub duration_ms: Option<u64>,
    /// Unique identifier of this track.
    pub uuid: u128,
    /// Whether the track has already been handed to a play operation.
    pub consumed: bool,
}

impl Track {
    /// Marks the track as handed to a play operation. Fails, changing
    /// nothing, if that already happened once.
    pub fn consume(&mut self) -> (r: Result<(), SongbirdError>)
        ensures
            old(self).consumed ==> r == Err::<(), SongbirdError>(SongbirdError::ConsumedSource)
                && *final(self) == *old(self),
            !old(self).consumed ==> r == Ok::<(), SongbirdError>(())
                && *final(self) == (Track { consumed: true, ..*old(self) }),
    {
        if self.consumed {
            Err(SongbirdError::ConsumedSource)
        } else {
            self.consumed = true;
            Ok(())
        }
    }

    /// Requests the playing state.
    pub fn play(&mut self) -> (r: Result<(), SongbirdError>)
        ensures
            old(self).consumed ==> r == Err::<(), SongbirdError>(SongbirdError::ConsumedSource)
                && *final(self) == *old(self),
            !old(self).consumed ==> r == Ok::<(), SongbirdError>(())
                && *final(self) == (Track {
                    state: (TrackState {
                        playing: old(self).state.playing.change_to_spec(PlayMode::Play),
                        ..old(self).state
                    }),
                    ..*old(self)
                }),
    {
        if self.consumed {
            Err(SongbirdError::ConsumedSource)
        } else {
            self.state.playing = self.state.playing.change_to(PlayMode::Play);
            Ok(())
        }
    }

    /// Requests the paused state.
    pub fn pause(&mut self) -> (r: Result<(), SongbirdError>)
        ensures
            old(self).consumed ==> r == Err::<(), SongbirdError>(SongbirdError::ConsumedSource)
                && *final(self) == *old(self),
            !old(self).consumed ==> r == Ok::<(), SongbirdError>(())
                && *final(self) == (Track {
                    state: (TrackState {
                        playing: old(self).state.playing.change_to_spec(PlayMode::Pause),
                        ..old(self).state
                    }),
                    ..*old(self)
                }),
    {
        if self.consumed {
            Err(SongbirdError::ConsumedSource)
        } else {
            self.state.playing = self.state.playing.change_to(PlayMode::Pause);
            Ok(())
        }
    }

    /// Manually stops the track. A stopped track cannot be restarted; this
    /// is deliberately distinct from `pause`.
    pub fn stop(&mut self) -> (r: Result<(), SongbirdError>)
        ensures
            old(self).consumed ==> r == Err::<(), SongbirdError>(SongbirdError::ConsumedSource)
                && *final(self) == *old(self),
            !old(self).consumed ==> r == Ok::<(), SongbirdError>(())
                && *final(self) == (Track {
                    state: (TrackState {
                        playing: old(self).state.playing.change_to_spec(PlayMode::Stop),
                        ..old(self).state
                    }),
                    ..*old(self)
                }),
    {
        if self.consumed {
            Err(SongbirdError::ConsumedSource)
        } else {
            self.state.playing = self.state.playing.change_to(PlayMode::Stop);
            Ok(())
        }
    }

    /// Reads the play status.
    pub fn playing(&self) -> (r: Result<PlayMode, SongbirdError>)
        ensures
            self.consumed ==> r == Err::<PlayMode, SongbirdError>(SongbirdError::ConsumedSource),
            !self.consumed ==> r == Ok::<PlayMode, SongbirdError>(self.state.playing),
    {
        if self.consumed {
            Err(SongbirdError::ConsumedSource)
        } else {
            Ok(self.state.playing)
        }
    }

    /// Reads the volume, in parts per thousand of unity gain.
    pub fn volume(&self) -> (r: Result<u32, SongbirdError>)
        ensures
            self.consumed ==> r == Err::<u32, SongbirdError>(SongbirdError::ConsumedSource),
            !self.consumed ==> r == Ok::<u32, SongbirdError>(self.state.volume_permille),
    {
        if self.consumed {
            Err(SongbirdError::ConsumedSource)
        } else {
            Ok(self.state.volume_permille)
        }
    }

    /// Replaces the volume, in parts per thousand of unity gain.
    pub fn set_volume(&mut self, volume_permille: u32) -> (r: Result<(), SongbirdError>)
        ensures
            old(self).consumed ==> r == Err::<(), SongbirdError>(SongbirdError::ConsumedSource)
                && *final(self) == *old(self),
            !old(self).consumed ==> r == Ok::<(), SongbirdError>(())
                && *final(self) == (Track {
                    state: (TrackState { volume_permille, ..old(self).state }),
                    ..*old(self)
                }),
    {
        if self.consumed {
            Err(SongbirdError::ConsumedSource)
        } else {
            self.state.volume_permille = volume_permille;
            Ok(())
        }
    }

    /// Reads the playback position, in milliseconds.
    pub fn position(&self) -> (r: Result<u64, SongbirdError>)
        ensures
            self.consumed ==> r == Err::<u64, SongbirdError>(SongbirdError::ConsumedSource),
            !self.consumed ==> r == Ok::<u64, SongbirdError>(self.state.position_ms),
    {
        if self.consumed {
            Err(SongbirdError::ConsumedSource)
        } else {
            Ok(self.state.position_ms)
        }
    }

    /// Reads the total play time, in milliseconds.
    pub fn play_time(&self) -> (r: Result<u64, SongbirdError>)
        ensures
            self.consumed ==> r == Err::<u64, SongbirdError>(SongbirdError::ConsumedSource),
            !self.consumed ==> r == Ok::<u64, SongbirdError>(self.state.play_time_ms),
    {
        if self.consumed {
            Err(SongbirdError::ConsumedSource)
        } else {
            Ok(self.state.play_time_ms)
        }
    }

    /// Replaces the loop count: `None` loops forever, `Some(n)` loops `n`
    /// more times. Fails on a consumed track, and with `SeekUnsupported` on
    /// a track whose input cannot seek back to its start.
    pub fn set_loop_count(&mut self, loops: Option<usize>) -> (r: Result<(), SongbirdError>)
        ensures
            old(self).consumed ==> r == Err::<(), SongbirdError>(SongbirdError::ConsumedSource)
                && *final(self) == *old(self),
            !old(self).consumed && !old(self).seekable ==> r == Err::<(), SongbirdError>(
                SongbirdError::Track { err: TrackError::SeekUnsupported },
            ) && *final(self) == *old(self),
            !old(self).consumed && old(self).seekable ==> r == Ok::<(), SongbirdError>(())
                && *final(self) == (Track {
                    state: (TrackState {
                        loops: match loops {
                            Option::None => LoopState::Infinite,
                            Option::Some(n) => LoopState::Finite { remaining: n },
                        },
                        ..old(self).state
                    }),
                    ..*old(self)
                }),
    {
        if self.consumed {
            Err(SongbirdError::ConsumedSource)
        } else if !self.seekable {
            Err(SongbirdError::Track { err: TrackError::SeekUnsupported })
        } else {
            self.state.loops = match loops {
                Option::None => LoopState::Infinite,
                Option::Some(n) => LoopState::Finite { remaining: n },
            };
            Ok(())
        }
    }

    /// Readies a lazily initialised track; a no-op in this model beyond the
    /// consumed-track guard.
    pub fn make_playable(&mut self) -> (r: Result<(), SongbirdError>)
        ensures
            old(self).consumed ==> r == Err::<(), SongbirdError>(SongbirdError::ConsumedSource),
            !old(self).consumed ==> r == Ok::<(), SongbirdError>(()),
            *final(self) == *old(self),
    {
        if self.consumed {
            Err(SongbirdError::ConsumedSource)
        } else {
            Ok(())
        }
    }

    /// Reads a copy of the track state.
    pub fn state(&self) -> (r: Result<TrackState, SongbirdError>)
        ensures
            self.consumed ==> r == Err::<TrackState, SongbirdError>(SongbirdError::ConsumedSource),
            !self.consumed ==> r == Ok::<TrackState, SongbirdError>(self.state),
    {
        if self.consumed {
            Err(SongbirdError::ConsumedSource)
        } else {
            Ok(self.state)
        }
    }

    /// Seeks to `position_ms`. Fails on a consumed track; with
    /// `SeekUnsupported` when the input cannot seek; and with
    /// `SeekOutOfBounds` when the target lies beyond the known duration.
    /// Within bounds, the resulting position is returned.
    pub fn seek_time(&mut self, position_ms: u64) -> (r: Result<u64, SongbirdError>)
        ensures
            old(self).consumed ==> r == Err::<u64, SongbirdError>(SongbirdError::ConsumedSource)
                && *final(self) == *old(self),
            !old(self).consumed && !old(self).seekable ==> r == Err::<u64, SongbirdError>(
                SongbirdError::Track { err: TrackError::SeekUnsupported },
            ) && *final(self) == *old(self),
            !old(self).consumed && old(self).seekable && (old(self).duration_ms matches Some(d)
                && position_ms > d) ==> r == Err::<u64, SongbirdError>(
                SongbirdError::Track { err: TrackError::SeekOutOfBounds },
            ) && *final(self) == *old(self),
            !old(self).consumed && old(self).seekable && !(old(self).duration_ms matches Some(d)
                && position_ms > d) ==> r == Ok::<u64, SongbirdError>(position_ms)
                && *final(self) == (Track {
                    state: (TrackState { position_ms, ..old(self).state }),
                    ..*old(self)
                }),
    {
        if self.consumed {
            Err(SongbirdError::ConsumedSource)
        } else if !self.seekable {
            Err(SongbirdError::Track { err: TrackError::SeekUnsupported })
        } else {
            let out_of_bounds: bool = match self.duration_ms {
                Option::Some(d) => position_ms > d,
                Option::None => false,
            };
            if out_of_bounds {
                Err(SongbirdError::Track { err: TrackError::SeekOutOfBounds })
            } else {
                self.state.position_ms = position_ms;
                Ok(position_ms)
            }
        }
    }

    /// Reads the unique identifier of the track.
    pub fn uuid(&self) -> (r: Result<u128, SongbirdError>)
        ensures
            self.consumed ==> r == Err::<u128, SongbirdError>(SongbirdError::ConsumedSource),
            !self.consumed ==> r == Ok::<u128, SongbirdError>(self.uuid),
    {
        if self.consumed {
            Err(SongbirdError::ConsumedSource)
        } else {
            Ok(self.uuid)
        }
    }

    /// The state after the track's input runs out: loop and rewind while
    /// loops remain, end otherwise.
    pub open spec fn end_step_state(t: Track) -> Track {
        match t.state.loops {
            LoopState::Infinite => Track {
                state: TrackState { position_ms: 0, ..t.state },
                ..t
            },
            LoopState::Finite { remaining } => if remaining == 0 {
                Track {
                    state: TrackState {
                        playing: t.state.playing.change_to_spec(PlayMode::End),
                        ..t.state
                    },
                    ..t
                }
            } else {
                Track {
                    state: TrackState {
                        position_ms: 0,
                        loops: LoopState::Finite { remaining: (remaining - 1) as usize },
                        ..t.state
                    },
                    ..t
                }
            },
        }
    }

    /// The lifecycle event fired when the track's input runs out in state
    /// `t`: a loop continuation while loops remain, the end event otherwise.
    pub open spec fn end_step_event(t: Track) -> TrackEvent {
        match t.state.loops {
            LoopState::Infinite => TrackEvent::Loop,
            LoopState::Finite { remaining } => if remaining == 0 {
                TrackEvent::End
            } else {
                TrackEvent::Loop
            },
        }
    }

    /// Advances the track past the end of its input, returning the
    /// lifecycle event that firing reports to registered handlers.
    pub fn on_source_end(&mut self) -> (fired: TrackEvent)
        requires
            old(self).state.playing == PlayMode::Play,
        ensures
            *final(self) == Track::end_step_state(*old(self)),
            fired == Track::end_step_event(*old(self)),
    {
        match self.state.loops {
            LoopState::Infinite => {
                self.state.position_ms = 0;
                TrackEvent::Loop
            },
            LoopState::Finite { remaining } => {
                if remaining == 0 {
                    self.state.playing = self.state.playing.change_to(PlayMode::End);
                    TrackEvent::End
                } else {
                    self.state.position_ms = 0;
                    self.state.loops = LoopState::Finite { remaining: remaining - 1 };
                    TrackEvent::Loop
                }
            },
        }
    }
}

impl PlayMode {
    /// Applies a requested state change, respecting that finished tracks
    /// never change again.
    pub fn change_to(&self, other: PlayMode) -> (r: PlayMode)
        ensures
            r == self.change_to_spec(other),
    {
        match self {
            PlayMode::Play => other,
            PlayMode::Pause => other,
            PlayMode::Stop => PlayMode::Stop,
            PlayMode::End => PlayMode::End,
        }
    }
}

/// The track state reached after the input has run out `n` times.
pub open spec fn run_end_steps(t: Track, n: nat) -> Track
    decreases n,
{
    if n == 0 {
        t
    } else {
        Track::end_step_state(run_end_steps(t, (n - 1) as nat))
    }
}

/// The lifecycle event fired the `i`-th time the input runs out (counting
/// from zero).
pub open spec fn end_event_at(t: Track, i: nat) -> TrackEvent {
    Track::end_step_event(run_end_steps(t, i))
}

/// Stepping once and then `n` times is the same as stepping `n + 1` times.
proof fn lemma_run_shift(t: Track, n: nat)
    ensures
        run_end_steps(t, n + 1) == run_end_steps(Track::end_step_state(t), n),
    decreases n,
{
    assert(run_end_steps(t, n + 1) == Track::end_step_state(run_end_steps(t, n)));
    if n == 0 {
        assert(run_end_steps(t, 0) == t);
        assert(run_end_steps(Track::end_step_state(t), 0) == Track::end_step_state(t));
    } else {
        lemma_run_shift(t, (n - 1) as nat);
        assert(run_end_steps(Track::end_step_state(t), n)
            == Track::end_step_state(run_end_steps(Track::end_step_state(t), (n - 1) as nat)));
    }
}

/// Law: a track whose loop state is infinite loops indefinitely. However
/// often its input runs out, it fires a loop continuation each time and is
/// still playing afterwards; no end event ever fires.
pub proof fn lemma_infinite_loops_forever(t: Track, n: nat)
    requires
        t.state.playing == PlayMode::Play,
        t.state.loops == LoopState::Infinite,
    ensures
        run_end_steps(t, n).state.playing == PlayMode::Play,
        run_end_steps(t, n).state.loops == LoopState::Infinite,
        end_event_at(t, n) == TrackEvent::Loop,
    decreases n,
{
    if n > 0 {
        lemma_infinite_loops_forever(t, (n - 1) as nat);
    }
}

/// Creates a track and its control handle from a one-shot source,
/// consuming the source. The track starts in the initial state; identity
/// and metadata come from the opened stream, and both sides agree on
/// seekability and duration.
pub fn create_player(source: &mut Source, uuid: u128, metadata: Metadata) -> (r: Result<
    (Track, TrackHandle),
    SongbirdError,
>)
    ensures
        old(source).consumed ==> r == Err::<(Track, TrackHandle), SongbirdError>(
            SongbirdError::ConsumedSource,
        ) && *final(source) == *old(source),
        !old(source).consumed ==> *final(source) == (Source { consumed: true, ..*old(source) })
            && r == Ok::<(Track, TrackHandle), SongbirdError>(
            (
                Track {
                    state: TrackState::initial_spec(),
                    seekable: old(source).kind.seekable_spec(),
                    duration_ms: metadata.duration_ms,
                    uuid,
                    consumed: false,
                },
                TrackHandle { uuid, seekable: old(source).kind.seekable_spec(), metadata },
            ),
        ),
{
    source.raise_if_consumed()?;
    let seekable = source.seekable();
    let duration_ms = metadata.duration_ms;
    let handle = TrackHandle { uuid, seekable, metadata };
    let track = Track {
        state: TrackState::initial(),
        seekable,
        duration_ms,
        uuid,
        consumed: false,
    };
    Ok((track, handle))
}

/// Law: a track set to loop `k` more times fires exactly `k` loop
/// continuations, one per exhausted pass, then fires the end event on the
/// next pass and is irreversibly ended afterwards, so no further play
/// events can come from it.
pub proof fn lemma_finite_loop_count(t: Track, k: usize)
    requires
        t.state.playing == PlayMode::Play,
        t.state.loops == (LoopState::Finite { remaining: k }),
    ensures
        forall|i: nat| i < k ==> #[trigger] end_event_at(t, i) == TrackEvent::Loop,
        end_event_at(t, k as nat) == TrackEvent::End,
        run_end_steps(t, k as nat + 1).state.playing == PlayMode::End,
        forall|i: nat| i <= k ==> #[trigger] run_end_steps(t, i).state.playing == PlayMode::Play,
    decreases k,
{
    if k == 0 {
        assert(run_end_steps(t, 0) == t);
        assert forall|i: nat| i <= k implies #[trigger] run_end_steps(t, i).state.playing
            == PlayMode::Play by {
            assert(i == 0);
        }
    } else {
        let tp = Track::end_step_state(t);
        assert(tp.state.playing == PlayMode::Play);
        assert(tp.state.loops == (LoopState::Finite { remaining: (k - 1) as usize }));
        lemma_finite_loop_count(tp, (k - 1) as usize);
        assert forall|i: nat| i < k implies #[trigger] end_event_at(t, i) == TrackEvent::Loop by {
            if i == 0 {
                assert(run_end_steps(t, 0) == t);
            } else {
                lemma_run_shift(t, (i - 1) as nat);
                assert(end_event_at(tp, (i - 1) as nat) == TrackEvent::Loop);
            }
        }
        lemma_run_shift(t, (k - 1) as nat);
        assert(end_event_at(t, k as nat) == end_event_at(tp, (k - 1) as nat));
        lemma_run_shift(t, k as nat);
        assert(run_end_steps(t, k as nat + 1) == run_end_steps(tp, (k - 1) as nat + 1));
        assert forall|i: nat| i <= k implies #[trigger] run_end_steps(t, i).state.playing
            == PlayMode::Play by {
            if i > 0 {
                lemma_run_shift(t, (i - 1) as nat);
                assert(run_end_steps(tp, (i - 1) as nat).state.playing == PlayMode::Play);
            }
        }
    }
}

} // verus!
