use songbird_py::errors::{SongbirdError, TrackError};
use songbird_py::events::{CoreEvent, Event, TrackEvent};
use songbird_py::source::Source;
use songbird_py::track::{create_player, LoopState, PlayMode, Track, TrackState};
use songbird_py::track_handle::{apply_command, Metadata, TrackCommand};

fn metadata_with_duration(duration_ms: Option<u64>) -> Metadata {
    let mut m = Metadata::empty();
    m.duration_ms = duration_ms;
    m
}

fn fresh_track(seekable: bool, duration_ms: Option<u64>) -> Track {
    Track {
        state: TrackState::initial(),
        seekable,
        duration_ms,
        uuid: 42,
        consumed: false,
    }
}

#[test]
fn source_consumed_once() {
    let mut s = Source::bytes(vec![0u8, 1, 2, 3], true);
    assert!(!s.consumed);
    assert_eq!(s.raise_if_consumed(), Ok(()));
    assert!(s.consumed);
    assert_eq!(s.raise_if_consumed(), Err(SongbirdError::ConsumedSource));
    assert_eq!(s.raise_if_consumed(), Err(SongbirdError::ConsumedSource));
}

#[test]
fn create_player_consumes_source() {
    let mut s = Source::bytes(vec![0u8; 16], false);
    let meta = metadata_with_duration(Some(3000));
    let (track, handle) = create_player(&mut s, 9, meta).unwrap();
    assert_eq!(track.uuid, 9);
    assert!(track.seekable);
    assert_eq!(track.duration_ms, Some(3000));
    assert_eq!(track.state.playing, PlayMode::Play);
    assert_eq!(track.state.volume_permille, 1000);
    assert_eq!(track.state.loops, LoopState::Finite { remaining: 0 });
    assert_eq!(handle.uuid(), 9);
    assert!(handle.is_seekable());

    let meta2 = metadata_with_duration(None);
    assert_eq!(
        create_player(&mut s, 10, meta2),
        Err(SongbirdError::ConsumedSource)
    );
}

#[test]
fn ytdl_source_is_not_seekable() {
    let mut s = Source::ytdl(String::from("https://example.invalid/v"));
    let (track, handle) = create_player(&mut s, 1, Metadata::empty()).unwrap();
    assert!(!track.seekable);
    assert!(!handle.is_seekable());
}

#[test]
fn stopped_track_cannot_restart() {
    let mut t = fresh_track(true, None);
    assert_eq!(t.stop(), Ok(()));
    assert_eq!(t.playing(), Ok(PlayMode::Stop));
    assert_eq!(t.play(), Ok(()));
    assert_eq!(t.playing(), Ok(PlayMode::Stop));
    assert_eq!(t.pause(), Ok(()));
    assert_eq!(t.playing(), Ok(PlayMode::Stop));
}

#[test]
fn pause_and_resume() {
    let mut t = fresh_track(true, None);
    assert_eq!(t.pause(), Ok(()));
    assert_eq!(t.playing(), Ok(PlayMode::Pause));
    assert_eq!(t.play(), Ok(()));
    assert_eq!(t.playing(), Ok(PlayMode::Play));
}

#[test]
fn consumed_track_refuses_every_operation() {
    let mut t = fresh_track(true, Some(1000));
    t.consume().unwrap();
    assert_eq!(t.play(), Err(SongbirdError::ConsumedSource));
    assert_eq!(t.pause(), Err(SongbirdError::ConsumedSource));
    assert_eq!(t.stop(), Err(SongbirdError::ConsumedSource));
    assert_eq!(t.playing(), Err(SongbirdError::ConsumedSource));
    assert_eq!(t.volume(), Err(SongbirdError::ConsumedSource));
    assert_eq!(t.set_volume(500), Err(SongbirdError::ConsumedSource));
    assert_eq!(t.position(), Err(SongbirdError::ConsumedSource));
    assert_eq!(t.play_time(), Err(SongbirdError::ConsumedSource));
    assert_eq!(t.set_loop_count(None), Err(SongbirdError::ConsumedSource));
    assert_eq!(t.make_playable(), Err(SongbirdError::ConsumedSource));
    assert_eq!(t.state(), Err(SongbirdError::ConsumedSource));
    assert_eq!(t.seek_time(0), Err(SongbirdError::ConsumedSource));
    assert_eq!(t.uuid(), Err(SongbirdError::ConsumedSource));
    assert_eq!(t.consume(), Err(SongbirdError::ConsumedSource));
}

#[test]
fn seek_within_bounds_returns_position() {
    let mut t = fresh_track(true, Some(5000));
    assert_eq!(t.seek_time(1200), Ok(1200));
    assert_eq!(t.position(), Ok(1200));
    assert_eq!(t.seek_time(5000), Ok(5000));
    assert_eq!(t.position(), Ok(5000));
}

#[test]
fn seek_beyond_duration_fails_with_track_error() {
    let mut t = fresh_track(true, Some(5000));
    let r = t.seek_time(5001);
    assert_eq!(
        r,
        Err(SongbirdError::Track { err: TrackError::SeekOutOfBounds })
    );
    assert!(r.unwrap_err().is_track_error());
    assert_eq!(t.position(), Ok(0));
}

#[test]
fn seek_on_unseekable_track_fails() {
    let mut t = fresh_track(false, Some(5000));
    assert_eq!(
        t.seek_time(100),
        Err(SongbirdError::Track { err: TrackError::SeekUnsupported })
    );
    assert_eq!(
        t.set_loop_count(Some(2)),
        Err(SongbirdError::Track { err: TrackError::SeekUnsupported })
    );
}

#[test]
fn loop_forever_keeps_firing_loop_events() {
    let mut t = fresh_track(true, None);
    t.set_loop_count(None).unwrap();
    assert_eq!(t.state().unwrap().loops, LoopState::Infinite);
    for _ in 0..25 {
        let fired = t.on_source_end();
        assert_eq!(fired, TrackEvent::Loop);
        assert_eq!(t.playing(), Ok(PlayMode::Play));
        assert_eq!(t.position(), Ok(0));
    }
}

#[test]
fn loop_twice_then_end() {
    let mut t = fresh_track(true, None);
    t.set_loop_count(Some(2)).unwrap();
    assert_eq!(t.on_source_end(), TrackEvent::Loop);
    assert_eq!(t.state().unwrap().loops, LoopState::Finite { remaining: 1 });
    assert_eq!(t.on_source_end(), TrackEvent::Loop);
    assert_eq!(t.state().unwrap().loops, LoopState::Finite { remaining: 0 });
    assert_eq!(t.on_source_end(), TrackEvent::End);
    assert_eq!(t.playing(), Ok(PlayMode::End));
    assert_eq!(t.play(), Ok(()));
    assert_eq!(t.playing(), Ok(PlayMode::End));
}

#[test]
fn zero_loops_end_immediately() {
    let mut t = fresh_track(true, None);
    assert_eq!(t.on_source_end(), TrackEvent::End);
    assert_eq!(t.playing(), Ok(PlayMode::End));
}

#[test]
fn handle_commands_have_expected_shape() {
    let mut s = Source::file(String::from("a.pcm"), true);
    let (_track, handle) = create_player(&mut s, 3, metadata_with_duration(Some(2000))).unwrap();
    assert_eq!(handle.play(), TrackCommand::Play);
    assert_eq!(handle.pause(), TrackCommand::Pause);
    assert_eq!(handle.stop(), TrackCommand::Stop);
    assert_eq!(
        handle.set_volume(750),
        TrackCommand::Volume { volume_permille: 750 }
    );
    assert_eq!(handle.make_playable(), TrackCommand::MakePlayable);
    assert_eq!(handle.get_info(), TrackCommand::Request);
    assert_eq!(
        handle.seek_time(1500),
        Ok(TrackCommand::Seek { position_ms: 1500 })
    );
    assert_eq!(
        handle.seek_time(2500),
        Err(SongbirdError::Track { err: TrackError::SeekOutOfBounds })
    );
    assert_eq!(
        handle.enable_loop(),
        Ok(TrackCommand::Loop { loops: LoopState::Infinite })
    );
    assert_eq!(
        handle.disable_loop(),
        Ok(TrackCommand::Loop { loops: LoopState::Finite { remaining: 0 } })
    );
    assert_eq!(
        handle.loop_for(4),
        Ok(TrackCommand::Loop { loops: LoopState::Finite { remaining: 4 } })
    );
}

#[test]
fn handle_refuses_global_only_event() {
    let mut s = Source::bytes(vec![1u8], false);
    let (_t, handle) = create_player(&mut s, 4, Metadata::empty()).unwrap();
    assert_eq!(
        handle.add_event(Event::Core(CoreEvent::SpeakingUpdate)),
        Err(SongbirdError::Track { err: TrackError::InvalidTrackEvent })
    );
    assert_eq!(
        handle.add_event(Event::Track(TrackEvent::End)),
        Ok(TrackCommand::AddEvent { selector: Event::Track(TrackEvent::End) })
    );
}

#[test]
fn unseekable_handle_refuses_seeks_and_loops() {
    let mut s = Source::ytdl(String::from("u"));
    let (_t, handle) = create_player(&mut s, 5, Metadata::empty()).unwrap();
    let unsupported = Err(SongbirdError::Track { err: TrackError::SeekUnsupported });
    assert_eq!(handle.seek_time(0), unsupported.clone());
    assert_eq!(handle.enable_loop(), unsupported.clone());
    assert_eq!(handle.disable_loop(), unsupported.clone());
    assert_eq!(handle.loop_for(1), unsupported);
}

#[test]
fn apply_command_drives_the_live_track() {
    let mut t = fresh_track(true, Some(4000));
    assert_eq!(apply_command(&mut t, &TrackCommand::Pause), Ok(()));
    assert_eq!(t.state.playing, PlayMode::Pause);
    assert_eq!(
        apply_command(&mut t, &TrackCommand::Volume { volume_permille: 300 }),
        Ok(())
    );
    assert_eq!(t.state.volume_permille, 300);
    assert_eq!(
        apply_command(&mut t, &TrackCommand::Seek { position_ms: 2000 }),
        Ok(())
    );
    assert_eq!(t.state.position_ms, 2000);
    assert_eq!(
        apply_command(&mut t, &TrackCommand::Seek { position_ms: 9000 }),
        Err(SongbirdError::Track { err: TrackError::SeekOutOfBounds })
    );
    assert_eq!(t.state.position_ms, 2000);
    assert_eq!(
        apply_command(&mut t, &TrackCommand::Loop { loops: LoopState::Infinite }),
        Ok(())
    );
    assert_eq!(t.state.loops, LoopState::Infinite);
    assert_eq!(apply_command(&mut t, &TrackCommand::Stop), Ok(()));
    assert_eq!(t.state.playing, PlayMode::Stop);
    assert_eq!(apply_command(&mut t, &TrackCommand::Play), Ok(()));
    assert_eq!(t.state.playing, PlayMode::Stop);
}

#[test]
fn is_done_marks_final_states() {
    assert!(!PlayMode::Play.is_done());
    assert!(!PlayMode::Pause.is_done());
    assert!(PlayMode::Stop.is_done());
    assert!(PlayMode::End.is_done());
}
