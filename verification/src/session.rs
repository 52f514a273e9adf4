//! Per-client subscriber session: joint teardown of its two duties.
//!
//! A session pairs an outbound duty (forward each received event to the
//! client) with an inbound duty (read the client's control frames). The
//! two run concurrently and share one termination flag: whichever duty
//! observes a terminating condition first sets it, and both loops stop.
//! Sessions share nothing with one another, so one session's teardown
//! cannot affect another.
use vstd::prelude::*;

verus! {

/// A control frame read from the client by the inbound duty.
#[derive(Debug, Clone, Copy, PartialEq, Eq, Structural)]
pub enum ClientMessage {
    Close,
    Ping,
    Other,
}

/// What either duty observed in one step of its loop.
#[derive(Debug, Clone, Copy, PartialEq, Eq, Structural)]
pub enum SessionSignal {
    /// The inbound duty read a control frame, or (`None`) the client's
    /// stream ended.
    Inbound(Option<ClientMessage>),
    /// The outbound duty tried to forward an event: whether one was still
    /// pending (the producer had not shut down) and whether the send
    /// reached the client.
    Outbound { pending: bool, sent: bool },
}

/// Whether a signal terminates the session: the client closed or its
/// stream ended; the producer shut down, so no event will ever be pending
/// again; or a send failed because the client is gone. A ping or any other
/// inbound frame only attests liveness.
pub open spec fn signal_terminates(signal: SessionSignal) -> bool {
    match signal {
        SessionSignal::Inbound(msg) => msg is None || msg == Some(ClientMessage::Close),
        SessionSignal::Outbound { pending, sent } => !pending || !sent,
    }
}

/// The termination flag after one observed signal: set once either duty
/// observes a terminating condition, and never cleared.
pub open spec fn session_step(done: bool, signal: SessionSignal) -> bool {
    done || signal_terminates(signal)
}

/// The termination flag after a sequence of observed signals.
pub open spec fn session_after(done: bool, signals: Seq<SessionSignal>) -> bool
    decreases signals.len(),
{
    if signals.len() == 0 {
        done
    } else {
        session_after(session_step(done, signals[0]), signals.skip(1))
    }
}

/// One client's session: the termination flag both duties observe.
pub struct SubscriberSession {
    done: bool,
}

impl SubscriberSession {
    /// Whether the session has ended: both duty loops must stop.
    pub closed spec fn is_done_spec(&self) -> bool {
        self.done
    }

    /// A fresh session for a newly accepted client: both duties live.
    pub fn new() -> (r: Self)
        ensures
            !r.is_done_spec(),
    {
        SubscriberSession { done: false }
    }

    /// Both duty loops run while this is false, and must stop as soon as
    /// it turns true.
    pub fn is_done(&self) -> (r: bool)
        ensures
            r == self.is_done_spec(),
    {
        self.done
    }

    /// Record what one duty observed: the session ends exactly when it was
    /// already over or the signal terminates it.
    pub fn observe(&mut self, signal: SessionSignal)
        ensures
            final(self).is_done_spec() == session_step(old(self).is_done_spec(), signal),
    {
        match signal {
            SessionSignal::Inbound(msg) => {
                match msg {
                    None => self.done = true,
                    Some(ClientMessage::Close) => self.done = true,
                    Some(ClientMessage::Ping) => (),
                    Some(ClientMessage::Other) => (),
                }
            },
            SessionSignal::Outbound { pending, sent } => {
                if !pending || !sent {
                    self.done = true;
                }
            },
        }
    }
}

/// Joint teardown: a client-initiated close ends the session at once, and
/// once ended it stays ended under every later signal of either duty — so
/// both the outbound and the inbound loop stop and never resume. Sessions
/// hold no shared state, so this touches no other session.
pub proof fn lemma_joint_teardown(done: bool, signals: Seq<SessionSignal>)
    ensures
        session_step(done, SessionSignal::Inbound(Some(ClientMessage::Close))),
        session_after(true, signals),
    decreases signals.len(),
{
    if signals.len() > 0 {
        lemma_joint_teardown(true, signals.skip(1));
    }
}

} // verus!
