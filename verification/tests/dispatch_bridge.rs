use songbird_py::context::{
    ConnectData, DisconnectData, DisconnectKind, DisconnectReason, EventContext, Payload,
    Speaking, SpeakingState, SpeakingUpdateData, TrackSnapshot,
};
use songbird_py::dispatch::{act, DispatchOutcome, EventBridge, EventHanlder, ScheduledTask};
use songbird_py::errors::SongbirdError;
use songbird_py::events::{CoreEvent, Event, TrackEvent};
use songbird_py::track::TrackState;

fn handler() -> EventHanlder {
    EventHanlder::new(11, 22)
}

#[test]
fn register_supported_selectors() {
    let mut bridge = EventBridge::new();
    assert_eq!(bridge.register(Event::Track(TrackEvent::Play), handler()), Ok(0));
    assert_eq!(bridge.register(Event::Core(CoreEvent::VoicePacket), handler()), Ok(1));
    assert_eq!(
        bridge.register(Event::Periodic { interval_ms: 50, phase_ms: None }, handler()),
        Ok(2)
    );
    assert_eq!(bridge.register(Event::Delayed { delay_ms: 10 }, handler()), Ok(3));
    assert_eq!(bridge.registrations.len(), 4);
}

#[test]
fn register_deprecated_selector_fails() {
    let mut bridge = EventBridge::new();
    assert_eq!(
        bridge.register(Event::Core(CoreEvent::ClientConnect), handler()),
        Err(SongbirdError::UnsupportedEvent)
    );
    assert!(bridge.registrations.is_empty());
}

#[test]
fn remove_all_clears_registrations() {
    let mut bridge = EventBridge::new();
    bridge.register(Event::Track(TrackEvent::End), handler()).unwrap();
    bridge.register(Event::Core(CoreEvent::DriverConnect), handler()).unwrap();
    bridge.remove_all();
    assert!(bridge.registrations.is_empty());
}

#[test]
fn act_schedules_track_context_once() {
    let state = TrackState::initial();
    let ctx = EventContext::Track {
        entries: vec![TrackSnapshot { state, handle_uuid: 77 }],
    };
    let (outcome, cancel) = act(&handler(), ctx);
    assert_eq!(cancel, None);
    assert_eq!(
        outcome,
        DispatchOutcome::Scheduled {
            task: ScheduledTask {
                coro: 11,
                event_loop: 22,
                payload: Payload::Track { state, handle_uuid: 77 },
            },
        }
    );
}

#[test]
fn act_converts_speaking_contexts() {
    let speaking = Speaking {
        delay: Some(0),
        speaking: SpeakingState::microphone(),
        ssrc: 5,
        user_id: Some(99),
    };
    let (outcome, _) = act(&handler(), EventContext::SpeakingStateUpdate { speaking });
    assert_eq!(
        outcome,
        DispatchOutcome::Scheduled {
            task: ScheduledTask {
                coro: 11,
                event_loop: 22,
                payload: Payload::Speaking { speaking },
            },
        }
    );

    let data = SpeakingUpdateData { speaking: false, ssrc: 5 };
    let (outcome, _) = act(&handler(), EventContext::SpeakingUpdate { data });
    assert_eq!(
        outcome,
        DispatchOutcome::Scheduled {
            task: ScheduledTask {
                coro: 11,
                event_loop: 22,
                payload: Payload::SpeakingUpdate { data },
            },
        }
    );
}

#[test]
fn act_converts_connection_contexts() {
    let connect = ConnectData {
        channel_id: Some(1),
        guild_id: 2,
        session_id: String::from("s"),
        server: String::from("v"),
        ssrc: 3,
    };
    let (outcome, _) = act(&handler(), EventContext::DriverReconnect { data: connect.clone() });
    assert_eq!(
        outcome,
        DispatchOutcome::Scheduled {
            task: ScheduledTask {
                coro: 11,
                event_loop: 22,
                payload: Payload::Connect { data: connect },
            },
        }
    );

    let disconnect = DisconnectData {
        kind: DisconnectKind::Runtime,
        reason: Some(DisconnectReason::WsClosed),
        channel_id: None,
        guild_id: 2,
        session_id: String::from("s"),
    };
    let (outcome, _) = act(&handler(), EventContext::DriverDisconnect { data: disconnect.clone() });
    assert_eq!(
        outcome,
        DispatchOutcome::Scheduled {
            task: ScheduledTask {
                coro: 11,
                event_loop: 22,
                payload: Payload::Disconnect { data: disconnect },
            },
        }
    );

    let (outcome, _) = act(&handler(), EventContext::ClientDisconnect { user_id: 1234 });
    assert_eq!(
        outcome,
        DispatchOutcome::Scheduled {
            task: ScheduledTask {
                coro: 11,
                event_loop: 22,
                payload: Payload::UserDisconnect { user_id: 1234 },
            },
        }
    );
}

#[test]
fn act_drops_unsupported_contexts() {
    let (outcome, cancel) = act(&handler(), EventContext::RtcpPacket);
    assert_eq!(outcome, DispatchOutcome::Dropped);
    assert_eq!(cancel, None);

    let (outcome, _) = act(
        &handler(),
        EventContext::ClientConnect { audio_ssrc: 1, user_id: 2, video_ssrc: 3 },
    );
    assert_eq!(outcome, DispatchOutcome::Dropped);
}

#[test]
fn speaking_state_flags() {
    assert_eq!(SpeakingState::microphone().bits, 1);
    assert_eq!(SpeakingState::soundshare().bits, 2);
    assert_eq!(SpeakingState::priority().bits, 4);
}

#[test]
fn selector_constructors() {
    assert_eq!(
        Event::periodic(500, Some(20)),
        Event::Periodic { interval_ms: 500, phase_ms: Some(20) }
    );
    assert_eq!(Event::delayed(300), Event::Delayed { delay_ms: 300 });
    assert!(Event::Cancel.supported());
    assert!(!Event::Core(CoreEvent::ClientConnect).supported());
    assert!(Event::Core(CoreEvent::RtcpPacket).is_global_only());
    assert!(!Event::Track(TrackEvent::Loop).is_global_only());
}
