use songbird_py::config::Config;
use songbird_py::dispatch::EventHanlder;
use songbird_py::driver::{normalize_endpoint, Bitrate, Driver};
use songbird_py::errors::{SongbirdError, TrackError};
use songbird_py::events::{CoreEvent, Event, TrackEvent};
use songbird_py::source::Source;
use songbird_py::track::create_player;
use songbird_py::track_handle::Metadata;

fn connect_with(d: &mut Driver, endpoint: &str) {
    d.connect(
        String::from("gateway-token"),
        String::from(endpoint),
        String::from("session-id"),
        1,
        2,
        3,
    );
}

#[test]
fn endpoint_prefix_is_stripped() {
    assert_eq!(
        normalize_endpoint("wss://region.example.invalid:443"),
        "region.example.invalid:443"
    );
    assert_eq!(
        normalize_endpoint("region.example.invalid:443"),
        "region.example.invalid:443"
    );
    assert_eq!(normalize_endpoint(""), "");
    assert_eq!(normalize_endpoint("wss:/x"), "wss:/x");
    assert_eq!(normalize_endpoint("wss://"), "");
}

#[test]
fn connect_targets_agree_with_and_without_prefix() {
    let mut with_prefix = Driver::new(None);
    connect_with(&mut with_prefix, "wss://voice.example.invalid");
    let mut without_prefix = Driver::new(None);
    connect_with(&mut without_prefix, "voice.example.invalid");

    let a = with_prefix.connection.as_ref().unwrap();
    let b = without_prefix.connection.as_ref().unwrap();
    assert_eq!(a, b);
    assert_eq!(a.endpoint, "voice.example.invalid");
    assert_eq!(a.channel_id, Some(2));
    assert_eq!(a.guild_id, 1);
    assert_eq!(a.user_id, 3);
    assert_eq!(a.session_id, "session-id");
}

#[test]
fn leave_clears_the_connection() {
    let mut d = Driver::new(None);
    connect_with(&mut d, "voice.example.invalid");
    assert!(d.connection.is_some());
    d.leave();
    assert!(d.connection.is_none());
}

#[test]
fn mute_and_unmute() {
    let mut d = Driver::new(None);
    assert!(!d.is_muted());
    d.mute();
    assert!(d.is_muted());
    d.unmute();
    assert!(!d.is_muted());
}

#[test]
fn bitrate_settings() {
    let mut d = Driver::new(None);
    assert_eq!(d.bitrate, None);
    d.set_bitrate(128000);
    assert_eq!(d.bitrate, Some(Bitrate::BitsPerSecond(128000)));
    d.set_bitrate_to_max();
    assert_eq!(d.bitrate, Some(Bitrate::Max));
    d.set_bitrate_to_auto();
    assert_eq!(d.bitrate, Some(Bitrate::Auto));
}

#[test]
fn play_source_consumes_and_returns_handle() {
    let mut d = Driver::new(None);
    let mut s = Source::bytes(vec![0u8; 8], true);
    let handle = d.play_source(&mut s, 21, Metadata::empty()).unwrap();
    assert_eq!(handle.uuid(), 21);
    assert!(handle.is_seekable());
    assert_eq!(d.playing, vec![21]);

    assert_eq!(
        d.play_source(&mut s, 22, Metadata::empty()),
        Err(SongbirdError::ConsumedSource)
    );
    assert_eq!(d.playing, vec![21]);
}

#[test]
fn play_only_source_stops_the_rest() {
    let mut d = Driver::new(None);
    let mut s1 = Source::bytes(vec![0u8; 8], true);
    let mut s2 = Source::bytes(vec![0u8; 8], true);
    d.play_source(&mut s1, 31, Metadata::empty()).unwrap();
    d.play_only_source(&mut s2, 32, Metadata::empty()).unwrap();
    assert_eq!(d.playing, vec![32]);
}

#[test]
fn play_track_consumes_it() {
    let mut d = Driver::new(None);
    let mut s = Source::file(String::from("x.pcm"), false);
    let (mut track, handle) = create_player(&mut s, 51, Metadata::empty()).unwrap();
    assert_eq!(d.play(&mut track), Ok(()));
    assert_eq!(d.playing, vec![51]);
    assert_eq!(d.play(&mut track), Err(SongbirdError::ConsumedSource));
    assert_eq!(d.play_only(&mut track), Err(SongbirdError::ConsumedSource));
    assert_eq!(d.playing, vec![51]);
    assert_eq!(handle.uuid(), 51);
}

#[test]
fn stop_clears_playing_tracks() {
    let mut d = Driver::new(None);
    let mut s1 = Source::bytes(vec![0u8; 4], false);
    let mut s2 = Source::bytes(vec![0u8; 4], false);
    d.play_source(&mut s1, 61, Metadata::empty()).unwrap();
    d.play_source(&mut s2, 62, Metadata::empty()).unwrap();
    assert_eq!(d.playing, vec![61, 62]);
    d.stop();
    assert!(d.playing.is_empty());
}

#[test]
fn add_event_registers_supported_selectors_in_order() {
    let mut d = Driver::new(None);
    let h = EventHanlder::new(7, 8);
    assert_eq!(d.add_event(Event::Track(TrackEvent::Play), h), Ok(0));
    assert_eq!(d.add_event(Event::Core(CoreEvent::DriverDisconnect), h), Ok(1));
    assert_eq!(
        d.add_event(Event::Core(CoreEvent::ClientConnect), h),
        Err(SongbirdError::UnsupportedEvent)
    );
    assert_eq!(d.bridge.registrations.len(), 2);
    assert_eq!(d.bridge.registrations[0].selector, Event::Track(TrackEvent::Play));
    d.remove_all_events();
    assert!(d.bridge.registrations.is_empty());
}

#[test]
fn custom_config_is_adopted_at_creation() {
    let mut c = Config::new();
    c.set_preallocated_tracks(12);
    let d = Driver::new(Some(c));
    assert_eq!(d.get_config().get_preallocated_tracks(), 12);
}

#[test]
fn error_variants_carry_their_diagnostics() {
    let e = SongbirdError::CouldNotConnectToRTP { detail: String::from("timed out") };
    assert!(!e.is_track_error());
    assert!(matches!(e, SongbirdError::CouldNotConnectToRTP { .. }));
    let e = SongbirdError::CouldNotOpenFile { detail: String::from("missing") };
    assert!(matches!(e, SongbirdError::CouldNotOpenFile { .. }));
    let e = SongbirdError::Ytdl { detail: String::from("no stream") };
    assert!(matches!(e, SongbirdError::Ytdl { .. }));
    let e = SongbirdError::Ffmpeg { detail: String::from("bad input") };
    assert!(matches!(e, SongbirdError::Ffmpeg { .. }));
    assert!(!SongbirdError::UseAsyncConstructor.is_track_error());
    assert!(SongbirdError::Track { err: TrackError::Finished }.is_track_error());
}
