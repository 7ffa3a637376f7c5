use vstd::prelude::*;

verus! {

/// Lifecycle events fired by a single track.
#[derive(Clone, Copy, PartialEq, Eq, Structural, Debug)]
pub enum TrackEvent {
    /// The track has (re)entered the playing state.
    Play,
    /// The track has been paused.
    Pause,
    /// The track ended.
    End,
    /// The track looped back to its start.
    Loop,
}

/// Events fired by the driver itself or by the voice connection.
#[derive(Clone, Copy, PartialEq, Eq, Structural, Debug)]
pub enum CoreEvent {
    /// Receipt of a speaking state update from another host.
    SpeakingStateUpdate,
    /// A source started or stopped speaking.
    SpeakingUpdate,
    /// Receipt of a voice packet from another stream in the call.
    VoicePacket,
    /// Receipt of an RTCP packet carrying call statistics.
    RtcpPacket,
    /// A user connected to the same stream; registration of this selector
    /// is refused, as the gateway's own state updates supersede it.
    ClientConnect,
    /// A user disconnected from the same stream.
    ClientDisconnect,
    /// The driver successfully connected to a voice channel.
    DriverConnect,
    /// The driver successfully reconnected after a network error.
    DriverReconnect,
    /// The driver failed to connect to, or dropped from, a voice channel.
    DriverDisconnect,
}

/// An event selector: what a handler can be registered against.
///
/// Timer intervals are carried as whole milliseconds.
#[derive(Clone, Copy, PartialEq, Eq, Structural, Debug)]
pub enum Event {
    /// Fires every `interval_ms`, first after an optional phase offset.
    Periodic { interval_ms: u64, phase_ms: Option<u64> },
    /// Fires once, after the given delay.
    Delayed { delay_ms: u64 },
    /// Retracts the listener it is returned from; never fires itself.
    Cancel,
    /// Fires on a lifecycle change of the attached track.
    Track(TrackEvent),
    /// Fires on a driver or connection event.
    Core(CoreEvent),
}

impl Event {
    /// Whether registration of this selector is accepted. Every selector is
    /// supported except the superseded client-connect notification.
    pub open spec fn is_supported(self) -> bool {
        !(self == Event::Core(CoreEvent::ClientConnect))
    }

    /// Whether this selector can only be attached to the driver as a whole,
    /// never to a single track.
    pub open spec fn is_global_only_spec(self) -> bool {
        self is Core
    }

    /// Decides whether registration of this selector is accepted.
    pub fn supported(&self) -> (r: bool)
        ensures
            r == self.is_supported(),
    {
        match self {
            Event::Core(CoreEvent::ClientConnect) => false,
            _ => true,
        }
    }

    /// Decides whether this selector is restricted to driver-wide registration.
    pub fn is_global_only(&self) -> (r: bool)
        ensures
            r == self.is_global_only_spec(),
    {
        match self {
            Event::Core(_) => true,
            _ => false,
        }
    }

    /// Builds a periodic timer selector.
    pub fn periodic(interval_ms: u64, phase_ms: Option<u64>) -> (r: Event)
        ensures
            r == (Event::Periodic { interval_ms, phase_ms }),
    {
        Event::Periodic { interval_ms, phase_ms }
    }

    /// Builds a one-shot delayed selector.
    pub fn delayed(delay_ms: u64) -> (r: Event)
        ensures
            r == (Event::Delayed { delay_ms }),
    {
        Event::Delayed { delay_ms }
    }
}

} // verus!
