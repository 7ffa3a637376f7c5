use vstd::prelude::*;

use crate::track::TrackState;

verus! {

/// Speaking-state flags of a user, as the voice gateway reports them.
///
/// The flags occupy the low three bits: microphone audio, shared-screen
/// audio, and priority speaker.
#[derive(Clone, Copy, PartialEq, Eq, Structural, Debug)]
pub struct SpeakingState {
    /// The raw flag bits.
    pub bits: u8,
}

/// Flag bit for ordinary microphone audio.
pub const SPEAKING_MICROPHONE: u8 = 1;
/// Flag bit for audio of a shared screen or application.
pub const SPEAKING_SOUNDSHARE: u8 = 2;
/// Flag bit for a priority speaker.
pub const SPEAKING_PRIORITY: u8 = 4;

impl SpeakingState {
    /// The flag set containing exactly the microphone bit.
    pub fn microphone() -> (r: SpeakingState)
        ensures
            r == (SpeakingState { bits: SPEAKING_MICROPHONE }),
    {
        SpeakingState { bits: SPEAKING_MICROPHONE }
    }

    /// The flag set containing exactly the soundshare bit.
    pub fn soundshare() -> (r: SpeakingState)
        ensures
            r == (SpeakingState { bits: SPEAKING_SOUNDSHARE }),
    {
        SpeakingState { bits: SPEAKING_SOUNDSHARE }
    }

    /// The flag set containing exactly the priority bit.
    pub fn priority() -> (r: SpeakingState)
        ensures
            r == (SpeakingState { bits: SPEAKING_PRIORITY }),
    {
        SpeakingState { bits: SPEAKING_PRIORITY }
    }
}

/// A speaking state update received from another host.
#[derive(Clone, Copy, PartialEq, Eq, Structural, Debug)]
pub struct Speaking {
    /// Opus audio delay hint, where the sender supplied one.
    pub delay: Option<u32>,
    /// The announced speaking-state flags.
    pub speaking: SpeakingState,
    /// The synchronisation source of the speaker.
    pub ssrc: u32,
    /// The user id of the speaker, where known.
    pub user_id: Option<u64>,
}

/// Notice that a source started or stopped speaking.
#[derive(Clone, Copy, PartialEq, Eq, Structural, Debug)]
pub struct SpeakingUpdateData {
    /// Whether the source is now speaking.
    pub speaking: bool,
    /// The synchronisation source concerned.
    pub ssrc: u32,
}

/// An RTP payload type, with the open-ended ranges collapsed into variants
/// carrying their numeric code.
#[derive(Clone, Copy, PartialEq, Eq, Structural, Debug)]
pub enum RtpType {
    Pcmu,
    Gsm,
    G723,
    Dvi4(u8),
    Lpc,
    Pcma,
    G722,
    L16Stereo,
    L16Mono,
    Qcelp,
    Cn,
    Mpa,
    G728,
    G729,
    CelB,
    Jpeg,
    Nv,
    H261,
    Mpv,
    Mp2t,
    H263,
    Dynamic(u8),
    Reserved(u8),
    Unassigned(u8),
    Illegal(u8),
}

/// The header and body of a received RTP packet, copied into plain values.
#[derive(Clone, PartialEq, Eq, Debug)]
pub struct Rtp {
    pub version: u8,
    pub padding: u8,
    pub extension: u8,
    pub csrc_count: u8,
    pub marker: u8,
    pub payload_type: RtpType,
    pub sequence: u16,
    pub timestamp: u32,
    pub ssrc: u32,
    pub csrc_list: Vec<u32>,
    pub payload: Vec<u8>,
}

/// A received voice packet, with its decoded audio where decoding is on.
#[derive(Clone, PartialEq, Eq, Debug)]
pub struct VoiceData {
    /// Decoded stereo samples, where the decode mode produces them.
    pub audio: Option<Vec<i16>>,
    /// The packet the audio came from.
    pub packet: Rtp,
    /// Offset of the payload within the packet body.
    pub payload_offset: usize,
    /// Padding at the end of the payload.
    pub payload_end_pad: usize,
}

/// Data attached to a successful driver connection or reconnection.
#[derive(Clone, PartialEq, Eq, Debug)]
pub struct ConnectData {
    /// The channel connected to, where known.
    pub channel_id: Option<u64>,
    /// The guild connected to.
    pub guild_id: u64,
    /// The session identifier of the connection.
    pub session_id: String,
    /// The voice server connected to.
    pub server: String,
    /// The synchronisation source assigned to this connection.
    pub ssrc: u32,
}

/// Why a driver connection was lost or failed.
#[derive(Clone, Copy, PartialEq, Eq, Structural, Debug)]
pub enum DisconnectKind {
    /// The driver failed to connect to the server.
    Connect,
    /// The driver failed to reconnect to the server.
    Reconnect,
    /// The connection was terminated mid-session.
    Runtime,
}

/// The closest cause of a disconnection, as far as the driver can tell.
#[derive(Clone, Copy, PartialEq, Eq, Structural, Debug)]
pub enum DisconnectReason {
    /// The attempt was dropped in favour of another request.
    AttemptDiscarded,
    /// The driver hit an internal error.
    Internal,
    /// A host I/O fault; likely transient.
    Io,
    /// The two ends disagreed on the voice protocol.
    ProtocolViolation,
    /// No connection was established within the configured time.
    TimedOut,
    /// The websocket connection was closed by the remote side.
    WsClosed,
}

/// Data attached to a lost or failed driver connection.
#[derive(Clone, PartialEq, Eq, Debug)]
pub struct DisconnectData {
    /// Which stage of connection life the loss belongs to.
    pub kind: DisconnectKind,
    /// The closest cause, where one is known.
    pub reason: Option<DisconnectReason>,
    /// The channel that was connected, where known.
    pub channel_id: Option<u64>,
    /// The guild that was connected.
    pub guild_id: u64,
    /// The session identifier of the lost connection.
    pub session_id: String,
}

/// A snapshot of one track delivered with a track event: its state and the
/// identity of the handle that controls it.
#[derive(Clone, Copy, PartialEq, Eq, Structural, Debug)]
pub struct TrackSnapshot {
    /// The state of the track when the event fired.
    pub state: TrackState,
    /// The unique identifier of the track's control handle.
    pub handle_uuid: u128,
}

/// The snapshot the driver delivers once per fired event.
///
/// Each variant carries an immutable copy of the data relevant to that
/// event; the value lives only for the duration of one dispatch call.
#[derive(Clone, PartialEq, Eq, Debug)]
pub enum EventContext {
    /// A track lifecycle event, with the states of the tracks concerned.
    Track { entries: Vec<TrackSnapshot> },
    /// A speaking state update from another host.
    SpeakingStateUpdate { speaking: Speaking },
    /// A source started or stopped speaking.
    SpeakingUpdate { data: SpeakingUpdateData },
    /// A voice packet from another stream.
    VoicePacket { data: VoiceData },
    /// An RTCP packet; carried opaquely, as its conversion is unsupported.
    RtcpPacket,
    /// A user connected to the stream; superseded, conversion unsupported.
    ClientConnect { audio_ssrc: u32, user_id: u64, video_ssrc: u32 },
    /// A user disconnected from the stream.
    ClientDisconnect { user_id: u64 },
    /// The driver connected to a voice channel.
    DriverConnect { data: ConnectData },
    /// The driver reconnected after a network error.
    DriverReconnect { data: ConnectData },
    /// The driver dropped from, or failed to reach, a voice channel.
    DriverDisconnect { data: DisconnectData },
}

impl EventContext {
    /// Validity of a context as the driver produces it: a track event
    /// always carries at least one track snapshot.
    pub open spec fn wf(self) -> bool {
        self matches EventContext::Track { entries } ==> entries@.len() > 0
    }

    /// Whether this context can be converted into a boundary-safe payload.
    /// RTCP packets and the superseded client-connect notice cannot.
    pub open spec fn is_convertible(self) -> bool {
        match self {
            EventContext::RtcpPacket => false,
            EventContext::ClientConnect { .. } => false,
            _ => true,
        }
    }
}

/// A boundary-safe value handed to a host-side handler: the converted form
/// of one event context, fully copied before dispatch returns.
#[derive(Clone, PartialEq, Eq, Debug)]
pub enum Payload {
    /// State and handle identity of the first track the event concerns.
    Track { state: TrackState, handle_uuid: u128 },
    /// A speaking state update.
    Speaking { speaking: Speaking },
    /// A speaking on/off notice.
    SpeakingUpdate { data: SpeakingUpdateData },
    /// A received voice packet.
    VoiceData { data: VoiceData },
    /// The user id of a user who disconnected.
    UserDisconnect { user_id: u64 },
    /// Data of a fresh connection or reconnection.
    Connect { data: ConnectData },
    /// Data of a lost connection.
    Disconnect { data: DisconnectData },
}

/// The payload a convertible context converts to.
pub open spec fn payload_spec(ctx: EventContext) -> Payload
    recommends
        ctx.wf(),
        ctx.is_convertible(),
{
    match ctx {
        EventContext::Track { entries } => Payload::Track {
            state: entries@[0].state,
            handle_uuid: entries@[0].handle_uuid,
        },
        EventContext::SpeakingStateUpdate { speaking } => Payload::Speaking { speaking },
        EventContext::SpeakingUpdate { data } => Payload::SpeakingUpdate { data },
        EventContext::VoicePacket { data } => Payload::VoiceData { data },
        EventContext::ClientDisconnect { user_id } => Payload::UserDisconnect { user_id },
        EventContext::DriverConnect { data } => Payload::Connect { data },
        EventContext::DriverReconnect { data } => Payload::Connect { data },
        EventContext::DriverDisconnect { data } => Payload::Disconnect { data },
        _ => Payload::UserDisconnect { user_id: 0 },
    }
}

/// Converts an event context into the boundary-safe payload handed to the
/// host. Succeeds exactly on the convertible contexts; the unsupported ones
/// (RTCP packets, the superseded client-connect notice) are reported so the
/// dispatch can be dropped without stalling the driver.
pub fn convert_context(ctx: EventContext) -> (r: Result<Payload, ()>)
    requires
        ctx.wf(),
    ensures
        ctx.is_convertible() ==> r == Ok::<Payload, ()>(payload_spec(ctx)),
        !ctx.is_convertible() ==> r == Err::<Payload, ()>(()),
{
    match ctx {
        EventContext::Track { entries } => {
            let first: TrackSnapshot = entries[0];
            Ok(Payload::Track { state: first.state, handle_uuid: first.handle_uuid })
        },
        EventContext::SpeakingStateUpdate { speaking } => {
            Ok(Payload::Speaking { speaking })
        },
        EventContext::SpeakingUpdate { data } => Ok(Payload::SpeakingUpdate { data }),
        EventContext::VoicePacket { data } => Ok(Payload::VoiceData { data }),
        EventContext::ClientDisconnect { user_id } => {
            Ok(Payload::UserDisconnect { user_id })
        },
        EventContext::DriverConnect { data } => Ok(Payload::Connect { data }),
        EventContext::DriverReconnect { data } => Ok(Payload::Connect { data }),
        EventContext::DriverDisconnect { data } => Ok(Payload::Disconnect { data }),
        EventContext::RtcpPacket => Err(()),
        EventContext::ClientConnect { .. } => Err(()),
    }
}

} // verus!
