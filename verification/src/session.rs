//! The push-session state machine: authenticates after every (re)connect,
//! replays the identity record, and surfaces a second consecutive send
//! failure instead of retrying within the same tick.

use vstd::prelude::*;

verus! {

/// The session's three states. `Offline` is terminal: an offline session
/// never attempts transport at all.
#[derive(Clone, Copy, Debug, PartialEq, Eq, Structural)]
pub enum SessionPhase {
    Offline,
    Connecting,
    Authenticated,
}

/// The kinds of event the wire protocol knows, in the order a fresh
/// connection must see them: login first, then the identity record, and
/// only then dynamic data.
#[derive(Clone, Copy, Debug, PartialEq, Eq, Structural)]
pub enum EventKind {
    Login,
    StaticData,
    DynamicData,
}

/// What the transport reported for one frame.
#[derive(Clone, Copy, Debug, PartialEq, Eq, Structural)]
pub enum SendOutcome {
    Delivered,
    TransportError,
}

/// What the session directs its driver to do next.
#[derive(Clone, Copy, Debug, PartialEq, Eq, Structural)]
pub enum SendDirective {
    /// Offline mode: no transport attempt, a successful no-op.
    Skip,
    /// Deliver the dynamic-data frame now.
    TransmitDynamic,
    /// Tear the connection down whole, reconnect, and replay the handshake.
    Rebuild,
    /// Second consecutive failure: report it to the caller, do not retry
    /// within this tick.
    Surface,
    /// This tick's sending is complete.
    Done,
}

/// Owns the push connection's protocol state. The connection handle itself
/// lives with the driver; every decision about it is made here.
#[derive(Clone, Copy, Debug)]
pub struct ReportingSession {
    pub offline: bool,
    pub phase: SessionPhase,
}

/// How many of the given events are of the given kind.
pub open spec fn count_events(t: Seq<EventKind>, k: EventKind) -> int
    decreases t.len(),
{
    if t.len() == 0 {
        0
    } else {
        count_events(t.drop_last(), k) + if t.last() == k {
            1int
        } else {
            0int
        }
    }
}

/// The frames one tick hands the transport, given how the transport
/// responded: a delivered dynamic frame stands alone; a failed one is
/// followed by the handshake replay when the reconnect succeeds, and by
/// nothing when it fails too.
pub open spec fn tick_wire_events(
    s: ReportingSession,
    first: SendOutcome,
    rebuild_ok: bool,
) -> Seq<EventKind> {
    if s.offline {
        Seq::empty()
    } else if first == SendOutcome::Delivered {
        seq![EventKind::DynamicData]
    } else if rebuild_ok {
        seq![EventKind::Login, EventKind::StaticData]
    } else {
        Seq::empty()
    }
}

impl ReportingSession {
    /// Offline sessions rest in `Offline` forever; online ones are either
    /// connecting or authenticated.
    pub open spec fn wf(self) -> bool {
        self.offline <==> self.phase == SessionPhase::Offline
    }

    /// An offline session is never constructed around a transport; an
    /// online one starts in the connect attempt.
    pub fn new(offline: bool) -> (r: ReportingSession)
        ensures
            r.wf(),
            r.offline == offline,
            !offline ==> r.phase == SessionPhase::Connecting,
    {
        ReportingSession {
            offline,
            phase: if offline {
                SessionPhase::Offline
            } else {
                SessionPhase::Connecting
            },
        }
    }

    /// The events every freshly connected transport must carry, in order,
    /// before any dynamic data: one login, then one identity record.
    pub fn handshake_events(&self) -> (v: Vec<EventKind>)
        ensures
            v@ =~= seq![EventKind::Login, EventKind::StaticData],
    {
        let mut v: Vec<EventKind> = Vec::new();
        v.push(EventKind::Login);
        v.push(EventKind::StaticData);
        v
    }

    /// How a tick's sending starts.
    pub fn begin_send(&self) -> (d: SendDirective)
        requires
            self.wf(),
        ensures
            self.offline ==> d == SendDirective::Skip,
            self.phase == SessionPhase::Authenticated ==> d == SendDirective::TransmitDynamic,
            !self.offline && self.phase != SessionPhase::Authenticated ==> d
                == SendDirective::Rebuild,
    {
        if self.offline {
            SendDirective::Skip
        } else {
            match self.phase {
                SessionPhase::Authenticated => SendDirective::TransmitDynamic,
                _ => SendDirective::Rebuild,
            }
        }
    }

    /// Reaction to the dynamic frame's outcome: any transport failure tears
    /// the session down entirely; there is no resuming the old connection.
    pub fn after_transmit(&mut self, outcome: SendOutcome) -> (d: SendDirective)
        requires
            old(self).wf(),
            old(self).phase == SessionPhase::Authenticated,
        ensures
            final(self).wf(),
            final(self).offline == old(self).offline,
            outcome == SendOutcome::Delivered ==> d == SendDirective::Done && final(self).phase == SessionPhase::Authenticated,
            outcome == SendOutcome::TransportError ==> d == SendDirective::Rebuild && final(self).phase == SessionPhase::Connecting,
    {
        match outcome {
            SendOutcome::Delivered => SendDirective::Done,
            SendOutcome::TransportError => {
                self.phase = SessionPhase::Connecting;
                SendDirective::Rebuild
            },
        }
    }

    /// Reaction to the one synchronous rebuild: a connect that carried the
    /// whole handshake authenticates the session; anything less leaves it
    /// connecting and surfaces the failure to the caller, so one tick never
    /// retries twice.
    pub fn after_rebuild(&mut self, connected: bool, handshake_delivered: bool) -> (d:
        SendDirective)
        requires
            old(self).wf(),
            old(self).phase == SessionPhase::Connecting,
        ensures
            final(self).wf(),
            final(self).offline == old(self).offline,
            connected && handshake_delivered ==> d == SendDirective::Done && final(self).phase == SessionPhase::Authenticated,
            !(connected && handshake_delivered) ==> d == SendDirective::Surface && final(self).phase == SessionPhase::Connecting,
    {
        if connected && handshake_delivered {
            self.phase = SessionPhase::Authenticated;
            SendDirective::Done
        } else {
            SendDirective::Surface
        }
    }
}

/// A send failure followed immediately by a successful reconnect results in
/// exactly one login event and one static-data event on the wire, and the
/// next dynamic-data frame comes only after both.
pub proof fn lemma_single_replay(s: ReportingSession, next_tick: Seq<EventKind>)
    requires
        s.wf(),
        !s.offline,
        s.phase == SessionPhase::Authenticated,
        next_tick == seq![EventKind::DynamicData],
    ensures
        ({
            let t = tick_wire_events(s, SendOutcome::TransportError, true);
            &&& t == seq![EventKind::Login, EventKind::StaticData]
            &&& count_events(t, EventKind::Login) == 1
            &&& count_events(t, EventKind::StaticData) == 1
            &&& count_events(t, EventKind::DynamicData) == 0
            &&& t + next_tick == seq![
                EventKind::Login,
                EventKind::StaticData,
                EventKind::DynamicData,
            ]
        }),
{
    let t = tick_wire_events(s, SendOutcome::TransportError, true);
    assert(t == seq![EventKind::Login, EventKind::StaticData]);
    let t1 = seq![EventKind::Login];
    let t0 = Seq::<EventKind>::empty();
    assert(t.drop_last() =~= t1);
    assert(t1.drop_last() =~= t0);
    assert(count_events(t0, EventKind::Login) == 0);
    assert(count_events(t0, EventKind::StaticData) == 0);
    assert(count_events(t0, EventKind::DynamicData) == 0);
    assert(t1.last() == EventKind::Login);
    assert(count_events(t1, EventKind::Login) == 1);
    assert(count_events(t1, EventKind::StaticData) == 0);
    assert(count_events(t1, EventKind::DynamicData) == 0);
    assert(t.last() == EventKind::StaticData);
    assert(count_events(t, EventKind::Login) == 1);
    assert(count_events(t, EventKind::StaticData) == 1);
    assert(count_events(t, EventKind::DynamicData) == 0);
    assert(t + next_tick =~= seq![
        EventKind::Login,
        EventKind::StaticData,
        EventKind::DynamicData,
    ]);
}

} // verus!
