use vstd::prelude::*;

use crate::context::{EventContext, Payload, payload_spec};
use crate::errors::SongbirdError;
use crate::events::{CoreEvent, Event};

verus! {

/// A host-side handler: an opaque callable together with the scheduling
/// context it must run on.
///
/// Both are carried as opaque reference identities handed in by the host
/// boundary; the bridge never looks inside them, it only threads them from
/// registration to the scheduled task. The scheduling context is an
/// explicit dependency of each handler, never ambient state, so the bridge
/// works unchanged against a mock scheduler.
#[derive(Clone, Copy, PartialEq, Eq, Structural, Debug)]
pub struct EventHanlder {
    /// Identity of the callable the host registered.
    pub coro: u64,
    /// Identity of the scheduling context dispatched work is placed on.
    pub event_loop: u64,
}

impl EventHanlder {
    /// Packs a callable and its scheduling context into a handler.
    pub fn new(coro: u64, event_loop: u64) -> (h: EventHanlder)
        ensures
            h == (EventHanlder { coro, event_loop }),
    {
        EventHanlder { coro, event_loop }
    }
}

/// A unit of work handed to the host scheduling context: run `coro` with
/// the converted `payload` on the scheduling context `event_loop`.
#[derive(Clone, PartialEq, Eq, Debug)]
pub struct ScheduledTask {
    /// Identity of the callable to run.
    pub coro: u64,
    /// Identity of the scheduling context to run it on.
    pub event_loop: u64,
    /// The converted, boundary-safe event payload the callable receives.
    pub payload: Payload,
}

/// What one dispatch call decided.
///
/// `Scheduled` hands the task to the host scheduler and returns at once;
/// the bridge never waits for the handler to finish. `Dropped` reports a
/// dispatch that was abandoned without harming the driver's loop — either
/// the context cannot be converted, or the host refused the task (for
/// example because its scheduling context has shut down; the host boundary
/// reports that case the same way).
#[derive(Clone, PartialEq, Eq, Debug)]
pub enum DispatchOutcome {
    /// The converted payload was handed to the host scheduler.
    Scheduled { task: ScheduledTask },
    /// The dispatch was dropped; the driver's loop continues.
    Dropped,
}

/// One handler registered against one event slot.
#[derive(Clone, Copy, PartialEq, Eq, Structural, Debug)]
pub struct Registration {
    /// The selector the handler listens on.
    pub selector: Event,
    /// The handler fired for that selector.
    pub handler: EventHanlder,
}

/// The registration table of the event-dispatch bridge.
#[derive(Clone, PartialEq, Debug)]
pub struct EventBridge {
    /// The live registrations, in registration order.
    pub registrations: Vec<Registration>,
}

/// The outcome a dispatch call decides for a given handler and context:
/// convertible contexts are scheduled onto the handler's scheduling
/// context, inconvertible ones are dropped.
pub open spec fn dispatch_of(handler: EventHanlder, ctx: EventContext) -> DispatchOutcome {
    if ctx.is_convertible() {
        DispatchOutcome::Scheduled {
            task: ScheduledTask {
                coro: handler.coro,
                event_loop: handler.event_loop,
                payload: payload_spec(ctx),
            },
        }
    } else {
        DispatchOutcome::Dropped
    }
}

/// Whether a fire of `ctx` reaches a handler registered on `selector`:
/// track and timed selectors fire with track snapshots, each connection
/// selector with its own context kind, and a cancel selector never fires.
pub open spec fn selector_matches(selector: Event, ctx: EventContext) -> bool {
    match selector {
        Event::Periodic { .. } => ctx is Track,
        Event::Delayed { .. } => ctx is Track,
        Event::Cancel => false,
        Event::Track(_) => ctx is Track,
        Event::Core(core) => match core {
            CoreEvent::SpeakingStateUpdate => ctx is SpeakingStateUpdate,
            CoreEvent::SpeakingUpdate => ctx is SpeakingUpdate,
            CoreEvent::VoicePacket => ctx is VoicePacket,
            CoreEvent::RtcpPacket => ctx is RtcpPacket,
            CoreEvent::ClientConnect => ctx is ClientConnect,
            CoreEvent::ClientDisconnect => ctx is ClientDisconnect,
            CoreEvent::DriverConnect => ctx is DriverConnect,
            CoreEvent::DriverReconnect => ctx is DriverReconnect,
            CoreEvent::DriverDisconnect => ctx is DriverDisconnect,
        },
    }
}

/// Whether a payload has the shape a handler registered on `selector`
/// expects to receive.
pub open spec fn payload_shaped_for(selector: Event, p: Payload) -> bool {
    match selector {
        Event::Periodic { .. } => p is Track,
        Event::Delayed { .. } => p is Track,
        Event::Cancel => false,
        Event::Track(_) => p is Track,
        Event::Core(core) => match core {
            CoreEvent::SpeakingStateUpdate => p is Speaking,
            CoreEvent::SpeakingUpdate => p is SpeakingUpdate,
            CoreEvent::VoicePacket => p is VoiceData,
            CoreEvent::ClientDisconnect => p is UserDisconnect,
            CoreEvent::DriverConnect => p is Connect,
            CoreEvent::DriverReconnect => p is Connect,
            CoreEvent::DriverDisconnect => p is Disconnect,
            _ => false,
        },
    }
}

impl EventBridge {
    /// A bridge with no registrations.
    pub fn new() -> (b: EventBridge)
        ensures
            b.registrations@ =~= Seq::<Registration>::empty(),
    {
        EventBridge { registrations: Vec::new() }
    }

    /// Registers a handler against an event selector. Supported selectors
    /// are appended to the table and their registration token returned;
    /// unsupported selectors are refused outright rather than silently
    /// ignored, and leave the table unchanged.
    pub fn register(&mut self, selector: Event, handler: EventHanlder) -> (r: Result<
        usize,
        SongbirdError,
    >)
        ensures
            !selector.is_supported() ==> r == Err::<usize, SongbirdError>(
                SongbirdError::UnsupportedEvent,
            ) && *final(self) == *old(self),
            selector.is_supported() ==> r == Ok::<usize, SongbirdError>(
                old(self).registrations@.len() as usize,
            ) && final(self).registrations@ =~= old(self).registrations@.push(
                Registration { selector, handler },
            ),
    {
        if !selector.supported() {
            Err(SongbirdError::UnsupportedEvent)
        } else {
            let token: usize = self.registrations.len();
            self.registrations.push(Registration { selector, handler });
            Ok(token)
        }
    }

    /// Drops every registration.
    pub fn remove_all(&mut self)
        ensures
            final(self).registrations@ =~= Seq::<Registration>::empty(),
    {
        self.registrations.clear();
    }
}

/// One dispatch: called by the driver's worker context once per fired
/// event, with the registered handler and the context snapshot.
///
/// The context is converted synchronously into a boundary-safe payload and
/// handed — together with the handler's callable and scheduling context —
/// to the host scheduler; the call never waits for the handler itself to
/// run. A context that cannot be converted is reported and the dispatch
/// dropped, leaving the driver's loop untouched. The second component is
/// the cancel signal handed back to the driver; this bridge never cancels
/// a registration from a dispatch.
pub fn act(handler: &EventHanlder, ctx: EventContext) -> (r: (DispatchOutcome, Option<Event>))
    requires
        ctx.wf(),
    ensures
        r.0 == dispatch_of(*handler, ctx),
        r.1 == None::<Event>,
{
    match crate::context::convert_context(ctx) {
        Ok(payload) => (
            DispatchOutcome::Scheduled {
                task: ScheduledTask {
                    coro: handler.coro,
                    event_loop: handler.event_loop,
                    payload,
                },
            },
            None,
        ),
        Err(()) => (DispatchOutcome::Dropped, None),
    }
}

/// Law: registration followed by a matching fire invokes the registered
/// handler exactly once, with a payload of the shape its selector expects.
/// For every supported selector whose matching context converts, the
/// dispatch schedules exactly one task; that task runs the registered
/// callable on the registered scheduling context and carries the converted
/// context. A context that does not convert is dropped, and never reaches
/// a handler as a misshapen payload.
pub proof fn lemma_register_then_fire(selector: Event, handler: EventHanlder, ctx: EventContext)
    requires
        selector.is_supported(),
        selector_matches(selector, ctx),
        ctx.wf(),
    ensures
        ctx.is_convertible() ==> dispatch_of(handler, ctx) == (DispatchOutcome::Scheduled {
            task: ScheduledTask {
                coro: handler.coro,
                event_loop: handler.event_loop,
                payload: payload_spec(ctx),
            },
        }),
        ctx.is_convertible() ==> payload_shaped_for(selector, payload_spec(ctx)),
        !ctx.is_convertible() ==> dispatch_of(handler, ctx) == DispatchOutcome::Dropped,
{
}

} // verus!
