use vstd::prelude::*;

use crate::config::Config;
use crate::dispatch::{EventBridge, EventHanlder, Registration};
use crate::errors::SongbirdError;
use crate::events::Event;
use crate::source::Source;
use crate::track::Track;
use crate::track_handle::{Metadata, TrackHandle};

verus! {

/// The bitrate applied to sent audio.
#[derive(Clone, Copy, PartialEq, Eq, Structural, Debug)]
pub enum Bitrate {
    /// A fixed rate, in bits per second.
    BitsPerSecond(i32),
    /// The maximum rate the codec supports.
    Max,
    /// A rate chosen automatically.
    Auto,
}

/// The characters of the websocket scheme prefix that endpoint strings may
/// carry and the connection target must not.
pub open spec fn wss_prefix() -> Seq<char> {
    seq!['w', 's', 's', ':', '/', '/']
}

/// Whether an endpoint string starts with the websocket scheme prefix.
pub open spec fn has_wss_prefix(s: Seq<char>) -> bool {
    s.len() >= 6 && s.subrange(0, 6) == wss_prefix()
}

/// The connection target named by an endpoint string: the string itself,
/// with a leading websocket scheme prefix stripped.
pub open spec fn normalize_endpoint_spec(s: Seq<char>) -> Seq<char> {
    if has_wss_prefix(s) {
        s.skip(6)
    } else {
        s
    }
}

/// Strips a leading websocket scheme prefix from an endpoint string, so
/// that endpoints arriving with and without it name the same target.
pub fn normalize_endpoint(endpoint: &str) -> (r: String)
    ensures
        r@ == normalize_endpoint_spec(endpoint@),
{
    let len: usize = endpoint.unicode_len();
    if len >= 6 {
        let is_wss = endpoint.get_char(0) == 'w' && endpoint.get_char(1) == 's'
            && endpoint.get_char(2) == 's' && endpoint.get_char(3) == ':'
            && endpoint.get_char(4) == '/' && endpoint.get_char(5) == '/';
        if is_wss {
            proof {
                assert(endpoint@.subrange(0, 6) =~= wss_prefix());
            }
            let rest = endpoint.substring_char(6, len);
            String::from_str(rest)
        } else {
            proof {
                if has_wss_prefix(endpoint@) {
                    assert(endpoint@.subrange(0, 6)[0] == endpoint@[0]);
                    assert(endpoint@.subrange(0, 6)[1] == endpoint@[1]);
                    assert(endpoint@.subrange(0, 6)[2] == endpoint@[2]);
                    assert(endpoint@.subrange(0, 6)[3] == endpoint@[3]);
                    assert(endpoint@.subrange(0, 6)[4] == endpoint@[4]);
                    assert(endpoint@.subrange(0, 6)[5] == endpoint@[5]);
                }
            }
            String::from_str(endpoint)
        }
    } else {
        String::from_str(endpoint)
    }
}

/// Law: the websocket scheme prefix is transparent. An endpoint supplied
/// with the prefix and the same endpoint supplied without it normalize to
/// the identical connection target.
pub proof fn lemma_wss_prefix_transparent(e: Seq<char>)
    requires
        !has_wss_prefix(e),
    ensures
        normalize_endpoint_spec(wss_prefix() + e) == normalize_endpoint_spec(e),
        normalize_endpoint_spec(e) == e,
{
    let w = wss_prefix() + e;
    assert(w.subrange(0, 6) =~= wss_prefix());
    assert(w.skip(6) =~= e);
}

/// Everything the driver needs to join a voice channel, as handed to the
/// live connection attempt.
#[derive(Clone, PartialEq, Eq, Debug)]
pub struct ConnectionInfo {
    /// The channel to join.
    pub channel_id: Option<u64>,
    /// The voice endpoint, with no websocket scheme prefix.
    pub endpoint: String,
    /// The guild the channel belongs to.
    pub guild_id: u64,
    /// The session identifier received from the gateway.
    pub session_id: String,
    /// The voice token received from the gateway; not a bot token.
    pub token: String,
    /// The user joining the channel.
    pub user_id: u64,
}

/// The abstract state of a driver: what the facade guarantees about the
/// live object after each serialized operation.
#[verifier::ext_equal]
pub struct DriverState {
    /// The configuration the driver currently applies.
    pub config: Config,
    /// Whether the driver is muted.
    pub muted: bool,
    /// The explicitly set bitrate, where one was set.
    pub bitrate: Option<Bitrate>,
    /// Identifiers of the tracks handed to the mixer, in play order.
    pub playing: Seq<u128>,
    /// The live event registrations, in registration order.
    pub registrations: Seq<Registration>,
    /// The connection target currently adopted, where one is.
    pub connection: Option<ConnectionInfo>,
}

/// One serialized driver control operation, as observed at the lock.
#[derive(Clone, PartialEq, Debug)]
pub enum DriverOp {
    /// Adopt a connection target.
    ConnectTo { info: ConnectionInfo },
    /// Disable the driver, leaving the channel.
    Leave,
    /// Mute the driver.
    Mute,
    /// Unmute the driver.
    Unmute,
    /// Hand a track to the mixer.
    PlayTrack { uuid: u128 },
    /// Hand a track to the mixer and stop all others.
    PlayOnlyTrack { uuid: u128 },
    /// Apply a bitrate.
    SetBitrate { bitrate: Bitrate },
    /// Stop every playing track.
    Stop,
    /// Replace the configuration.
    SetConfig { config: Config },
    /// Register an event handler.
    AddEvent { selector: Event, handler: EventHanlder },
    /// Drop every event registration.
    RemoveAllEvents,
}

/// The state a single operation leaves the driver in.
pub open spec fn apply_op(s: DriverState, op: DriverOp) -> DriverState {
    match op {
        DriverOp::ConnectTo { info } => DriverState { connection: Some(info), ..s },
        DriverOp::Leave => DriverState { connection: None, ..s },
        DriverOp::Mute => DriverState { muted: true, ..s },
        DriverOp::Unmute => DriverState { muted: false, ..s },
        DriverOp::PlayTrack { uuid } => DriverState { playing: s.playing.push(uuid), ..s },
        DriverOp::PlayOnlyTrack { uuid } => DriverState { playing: seq![uuid], ..s },
        DriverOp::SetBitrate { bitrate } => DriverState { bitrate: Some(bitrate), ..s },
        DriverOp::Stop => DriverState { playing: Seq::empty(), ..s },
        DriverOp::SetConfig { config } => DriverState { config, ..s },
        DriverOp::AddEvent { selector, handler } => if selector.is_supported() {
            DriverState {
                registrations: s.registrations.push(Registration { selector, handler }),
                ..s
            }
        } else {
            s
        },
        DriverOp::RemoveAllEvents => DriverState { registrations: Seq::empty(), ..s },
    }
}

/// The state a sequence of operations leaves the driver in, applying them
/// one at a time in order.
pub open spec fn apply_ops(s: DriverState, ops: Seq<DriverOp>) -> DriverState
    decreases ops.len(),
{
    if ops.len() == 0 {
        s
    } else {
        apply_ops(apply_op(s, ops[0]), ops.skip(1))
    }
}

/// Law: driver control operations serialize. Running one batch of
/// operations and then another, each in lock order, leaves exactly the
/// state of running the concatenated sequence: the second batch observes
/// precisely the state the first one completed, and no operation's effect
/// interleaves with another's.
pub proof fn lemma_ops_serialize(s: DriverState, ops1: Seq<DriverOp>, ops2: Seq<DriverOp>)
    ensures
        apply_ops(s, ops1 + ops2) == apply_ops(apply_ops(s, ops1), ops2),
    decreases ops1.len(),
{
    if ops1.len() == 0 {
        assert(ops1 + ops2 =~= ops2);
    } else {
        assert((ops1 + ops2)[0] == ops1[0]);
        assert((ops1 + ops2).skip(1) =~= ops1.skip(1) + ops2);
        lemma_ops_serialize(apply_op(s, ops1[0]), ops1.skip(1), ops2);
    }
}

/// Law: the configuration round-trips through a driver. After applying a
/// configuration with a set-config operation, the state the driver reports
/// holds exactly that configuration, whatever state it started from.
pub proof fn lemma_config_round_trip(s: DriverState, config: Config)
    ensures
        apply_op(s, DriverOp::SetConfig { config }).config == config,
{
}

/// The driver control facade.
///
/// One live driver stands behind each value of this type; the host holds
/// it behind a mutual-exclusion lock and every control operation below is
/// one serialized critical section, so the operations take effect in lock
/// order (`apply_op` states each effect on the abstract state).
#[derive(Clone, PartialEq, Debug)]
pub struct Driver {
    /// The configuration the driver applies.
    pub config: Config,
    /// Whether the driver is muted.
    pub muted: bool,
    /// The explicitly set bitrate, where one was set.
    pub bitrate: Option<Bitrate>,
    /// Identifiers of the tracks handed to the mixer, in play order.
    pub playing: Vec<u128>,
    /// The event-dispatch bridge registrations.
    pub bridge: EventBridge,
    /// The connection target currently adopted, where one is.
    pub connection: Option<ConnectionInfo>,
}

impl View for Driver {
    type V = DriverState;

    open spec fn view(&self) -> DriverState {
        DriverState {
            config: self.config,
            muted: self.muted,
            bitrate: self.bitrate,
            playing: self.playing@,
            registrations: self.bridge.registrations@,
            connection: self.connection,
        }
    }
}

impl Driver {
    /// Builds a driver over the given configuration, or the default one.
    pub fn new(config: Option<Config>) -> (d: Driver)
        ensures
            d@ == (DriverState {
                config: match config {
                    Some(c) => c,
                    None => Config::default_spec(),
                },
                muted: false,
                bitrate: None,
                playing: Seq::empty(),
                registrations: Seq::empty(),
                connection: None,
            }),
    {
        let c = match config {
            Option::Some(c) => c,
            Option::None => Config::new(),
        };
        let d = Driver {
            config: c,
            muted: false,
            bitrate: None,
            playing: Vec::new(),
            bridge: EventBridge::new(),
            connection: None,
        };
        proof {
            assert(d@ =~= (DriverState {
                config: match config {
                    Some(cc) => cc,
                    None => Config::default_spec(),
                },
                muted: false,
                bitrate: None,
                playing: Seq::empty(),
                registrations: Seq::empty(),
                connection: None,
            }));
        }
        d
    }

    /// Adopts a connection target built from the gateway's data, stripping
    /// a websocket scheme prefix from the endpoint. The adopted target,
    /// which the live connection attempt must use, is left in `connection`.
    pub fn connect(
        &mut self,
        token: String,
        endpoint: String,
        session_id: String,
        guild_id: u64,
        channel_id: u64,
        user_id: u64,
    )
        ensures
            final(self)@.connection matches Some(info) && info.channel_id == Some(channel_id)
                && info.endpoint@ == normalize_endpoint_spec(endpoint@)
                && info.guild_id == guild_id && info.session_id == session_id
                && info.token == token && info.user_id == user_id,
            final(self)@ == apply_op(
                old(self)@,
                DriverOp::ConnectTo { info: final(self)@.connection.unwrap() },
            ),
    {
        let normalized = normalize_endpoint(endpoint.as_str());
        let info = ConnectionInfo {
            channel_id: Some(channel_id),
            endpoint: normalized,
            guild_id,
            session_id,
            token,
            user_id,
        };
        self.connection = Some(info);
        proof {
            assert(final(self)@ =~= apply_op(
                old(self)@,
                DriverOp::ConnectTo { info: final(self)@.connection.unwrap() },
            ));
        }
    }

    /// Disables the driver. This does not change the host's own voice
    /// state on the gateway.
    pub fn leave(&mut self)
        ensures
            final(self)@ == apply_op(old(self)@, DriverOp::Leave),
    {
        self.connection = None;
        proof {
            assert(final(self)@ =~= apply_op(old(self)@, DriverOp::Leave));
        }
    }

    /// Mutes the driver.
    pub fn mute(&mut self)
        ensures
            final(self)@ == apply_op(old(self)@, DriverOp::Mute),
    {
        self.muted = true;
        proof {
            assert(final(self)@ =~= apply_op(old(self)@, DriverOp::Mute));
        }
    }

    /// Unmutes the driver.
    pub fn unmute(&mut self)
        ensures
            final(self)@ == apply_op(old(self)@, DriverOp::Unmute),
    {
        self.muted = false;
        proof {
            assert(final(self)@ =~= apply_op(old(self)@, DriverOp::Unmute));
        }
    }

    /// Reports whether the driver is muted.
    pub fn is_muted(&self) -> (r: bool)
        ensures
            r == self@.muted,
    {
        self.muted
    }

    /// Plays a one-shot source. The source is consumed; a source already
    /// used once is refused with `ConsumedSource` and nothing changes.
    /// Identity and metadata of the opened stream are supplied by the
    /// caller that opened it; the returned handle controls the new track.
    pub fn play_source(&mut self, source: &mut Source, uuid: u128, metadata: Metadata) -> (r:
        Result<TrackHandle, SongbirdError>)
        ensures
            old(source).consumed ==> r == Err::<TrackHandle, SongbirdError>(
                SongbirdError::ConsumedSource,
            ) && *final(source) == *old(source) && *final(self) == *old(self),
            !old(source).consumed ==> *final(source) == (Source {
                consumed: true,
                ..*old(source)
            }) && r == Ok::<TrackHandle, SongbirdError>(
                TrackHandle { uuid, seekable: old(source).kind.seekable_spec(), metadata },
            ) && final(self)@ == apply_op(old(self)@, DriverOp::PlayTrack { uuid }),
    {
        source.raise_if_consumed()?;
        let seekable = source.seekable();
        self.playing.push(uuid);
        proof {
            assert(final(self)@ =~= apply_op(old(self)@, DriverOp::PlayTrack { uuid }));
        }
        Ok(TrackHandle { uuid, seekable, metadata })
    }

    /// As `play_source`, but stops every other track.
    pub fn play_only_source(&mut self, source: &mut Source, uuid: u128, metadata: Metadata) -> (r:
        Result<TrackHandle, SongbirdError>)
        ensures
            old(source).consumed ==> r == Err::<TrackHandle, SongbirdError>(
                SongbirdError::ConsumedSource,
            ) && *final(source) == *old(source) && *final(self) == *old(self),
            !old(source).consumed ==> *final(source) == (Source {
                consumed: true,
                ..*old(source)
            }) && r == Ok::<TrackHandle, SongbirdError>(
                TrackHandle { uuid, seekable: old(source).kind.seekable_spec(), metadata },
            ) && final(self)@ == apply_op(old(self)@, DriverOp::PlayOnlyTrack { uuid }),
    {
        source.raise_if_consumed()?;
        let seekable = source.seekable();
        self.playing = Vec::new();
        self.playing.push(uuid);
        proof {
            assert(final(self)@ =~= apply_op(old(self)@, DriverOp::PlayOnlyTrack { uuid }));
        }
        Ok(TrackHandle { uuid, seekable, metadata })
    }

    /// Hands a prepared track to the mixer, consuming it. A track already
    /// handed over once is refused with `ConsumedSource` and nothing
    /// changes; its handle, returned by `create_player`, stays valid.
    pub fn play(&mut self, track: &mut Track) -> (r: Result<(), SongbirdError>)
        ensures
            old(track).consumed ==> r == Err::<(), SongbirdError>(SongbirdError::ConsumedSource)
                && *final(track) == *old(track) && *final(self) == *old(self),
            !old(track).consumed ==> *final(track) == (Track { consumed: true, ..*old(track) })
                && r == Ok::<(), SongbirdError>(())
                && final(self)@ == apply_op(old(self)@, DriverOp::PlayTrack { uuid: old(track).uuid }),
    {
        track.consume()?;
        self.playing.push(track.uuid);
        proof {
            assert(final(self)@ =~= apply_op(
                old(self)@,
                DriverOp::PlayTrack { uuid: old(track).uuid },
            ));
        }
        Ok(())
    }

    /// As `play`, but stops every other track.
    pub fn play_only(&mut self, track: &mut Track) -> (r: Result<(), SongbirdError>)
        ensures
            old(track).consumed ==> r == Err::<(), SongbirdError>(SongbirdError::ConsumedSource)
                && *final(track) == *old(track) && *final(self) == *old(self),
            !old(track).consumed ==> *final(track) == (Track { consumed: true, ..*old(track) })
                && r == Ok::<(), SongbirdError>(())
                && final(self)@ == apply_op(
                old(self)@,
                DriverOp::PlayOnlyTrack { uuid: old(track).uuid },
            ),
    {
        track.consume()?;
        self.playing = Vec::new();
        self.playing.push(track.uuid);
        proof {
            assert(final(self)@ =~= apply_op(
                old(self)@,
                DriverOp::PlayOnlyTrack { uuid: old(track).uuid },
            ));
        }
        Ok(())
    }

    /// Applies a fixed bitrate, in bits per second.
    pub fn set_bitrate(&mut self, bitrate: i32)
        ensures
            final(self)@ == apply_op(
                old(self)@,
                DriverOp::SetBitrate { bitrate: Bitrate::BitsPerSecond(bitrate) },
            ),
    {
        self.bitrate = Some(Bitrate::BitsPerSecond(bitrate));
        proof {
            assert(final(self)@ =~= apply_op(
                old(self)@,
                DriverOp::SetBitrate { bitrate: Bitrate::BitsPerSecond(bitrate) },
            ));
        }
    }

    /// Applies the maximum bitrate.
    pub fn set_bitrate_to_max(&mut self)
        ensures
            final(self)@ == apply_op(
                old(self)@,
                DriverOp::SetBitrate { bitrate: Bitrate::Max },
            ),
    {
        self.bitrate = Some(Bitrate::Max);
        proof {
            assert(final(self)@ =~= apply_op(
                old(self)@,
                DriverOp::SetBitrate { bitrate: Bitrate::Max },
            ));
        }
    }

    /// Lets the driver choose the bitrate.
    pub fn set_bitrate_to_auto(&mut self)
        ensures
            final(self)@ == apply_op(
                old(self)@,
                DriverOp::SetBitrate { bitrate: Bitrate::Auto },
            ),
    {
        self.bitrate = Some(Bitrate::Auto);
        proof {
            assert(final(self)@ =~= apply_op(
                old(self)@,
                DriverOp::SetBitrate { bitrate: Bitrate::Auto },
            ));
        }
    }

    /// Stops every playing track.
    pub fn stop(&mut self)
        ensures
            final(self)@ == apply_op(old(self)@, DriverOp::Stop),
    {
        self.playing = Vec::new();
        proof {
            assert(final(self)@ =~= apply_op(old(self)@, DriverOp::Stop));
        }
    }

    /// Replaces the driver's configuration with a copy of the given one.
    pub fn set_config(&mut self, config: &Config)
        ensures
            final(self)@ == apply_op(old(self)@, DriverOp::SetConfig { config: *config }),
    {
        self.config = *config;
        proof {
            assert(final(self)@ =~= apply_op(
                old(self)@,
                DriverOp::SetConfig { config: *config },
            ));
        }
    }

    /// Reads a copy of the driver's configuration.
    pub fn get_config(&self) -> (c: Config)
        ensures
            c == self@.config,
    {
        self.config
    }

    /// Registers an event handler against a selector. Unsupported
    /// selectors are refused with `UnsupportedEvent` and nothing changes;
    /// otherwise the registration token is returned.
    pub fn add_event(&mut self, selector: Event, handler: EventHanlder) -> (r: Result<
        usize,
        SongbirdError,
    >)
        ensures
            !selector.is_supported() ==> r == Err::<usize, SongbirdError>(
                SongbirdError::UnsupportedEvent,
            ) && *final(self) == *old(self),
            selector.is_supported() ==> r == Ok::<usize, SongbirdError>(
                old(self)@.registrations.len() as usize,
            ) && final(self)@ == apply_op(old(self)@, DriverOp::AddEvent { selector, handler }),
    {
        let r = self.bridge.register(selector, handler);
        proof {
            if selector.is_supported() {
                assert(final(self)@ =~= apply_op(
                    old(self)@,
                    DriverOp::AddEvent { selector, handler },
                ));
            }
        }
        r
    }

    /// Drops every event registration.
    pub fn remove_all_events(&mut self)
        ensures
            final(self)@ == apply_op(old(self)@, DriverOp::RemoveAllEvents),
    {
        self.bridge.remove_all();
        proof {
            assert(final(self)@ =~= apply_op(old(self)@, DriverOp::RemoveAllEvents));
        }
    }
}

} // verus!
