//! Admission control: a fixed pool of slots that bounds in-flight operations,
//! and the shared status snapshot.

use vstd::prelude::*;

use crate::network::NetworkStatus;

verus! {

/// The answer to a request for a slot.
#[derive(Clone, Copy, Debug, PartialEq, Eq, Structural)]
pub enum Admission {
    /// A slot is held by the caller until it releases it.
    Granted,
    /// Every slot is taken: the caller waits, and asks again after a release.
    Wait,
    /// The governor has been shut down.
    Closed,
}

/// The state of a governor, as plain values.
pub struct GovernorState {
    pub max_connections: u32,
    pub in_use: u32,
    pub waiting: u32,
    pub closed: bool,
    pub connected: bool,
    pub latency: u64,
}

impl GovernorState {
    /// Never more slots in use than the pool holds.
    pub open spec fn wf(self) -> bool {
        self.in_use <= self.max_connections
    }

    /// The status snapshot this state reports.
    pub open spec fn status(self) -> NetworkStatus {
        NetworkStatus {
            connected: self.connected,
            latency: self.latency,
            active_connections: self.in_use,
            pending_requests: self.waiting,
        }
    }
}

/// Answer to a new operation that asks for a slot.
pub open spec fn admission(g: GovernorState) -> Admission {
    if g.closed {
        Admission::Closed
    } else if g.in_use < g.max_connections {
        Admission::Granted
    } else {
        Admission::Wait
    }
}

/// State after a new operation asks for a slot: it holds one when granted, and
/// joins the waiters when told to wait.
pub open spec fn after_acquire(g: GovernorState) -> GovernorState {
    match admission(g) {
        Admission::Granted => GovernorState { in_use: (g.in_use + 1) as u32, ..g },
        Admission::Wait => GovernorState {
            waiting: if g.waiting < u32::MAX {
                (g.waiting + 1) as u32
            } else {
                g.waiting
            },
            ..g
        },
        Admission::Closed => g,
    }
}

/// State after a waiting operation asks again: when granted it stops waiting;
/// when the governor is closed it stops waiting too.
pub open spec fn after_retry(g: GovernorState) -> GovernorState {
    let waiting = if g.waiting > 0 {
        (g.waiting - 1) as u32
    } else {
        0u32
    };
    match admission(g) {
        Admission::Granted => GovernorState { in_use: (g.in_use + 1) as u32, waiting, ..g },
        Admission::Wait => g,
        Admission::Closed => GovernorState { waiting, ..g },
    }
}

/// State after an operation gives its slot back.
pub open spec fn after_release(g: GovernorState) -> GovernorState {
    GovernorState { in_use: (g.in_use - 1) as u32, ..g }
}

/// Bounds the number of concurrent operations and tracks the connection status.
pub struct ConnectionGovernor {
    max_connections: u32,
    in_use: u32,
    waiting: u32,
    closed: bool,
    connected: bool,
    latency: u64,
}

impl View for ConnectionGovernor {
    type V = GovernorState;

    closed spec fn view(&self) -> GovernorState {
        GovernorState {
            max_connections: self.max_connections,
            in_use: self.in_use,
            waiting: self.waiting,
            closed: self.closed,
            connected: self.connected,
            latency: self.latency,
        }
    }
}

impl ConnectionGovernor {
    /// A governor with `max_connections` free slots, open and disconnected.
    pub fn new(max_connections: u32) -> (r: ConnectionGovernor)
        ensures
            r@ == (GovernorState {
                max_connections,
                in_use: 0,
                waiting: 0,
                closed: false,
                connected: false,
                latency: 0,
            }),
            r@.wf(),
    {
        ConnectionGovernor {
            max_connections,
            in_use: 0,
            waiting: 0,
            closed: false,
            connected: false,
            latency: 0,
        }
    }

    /// A new operation asks for a slot.
    pub fn acquire(&mut self) -> (r: Admission)
        requires
            old(self)@.wf(),
        ensures
            r == admission(old(self)@),
            final(self)@ == after_acquire(old(self)@),
            final(self)@.wf(),
    {
        if self.closed {
            Admission::Closed
        } else if self.in_use < self.max_connections {
            self.in_use = self.in_use + 1;
            Admission::Granted
        } else {
            self.waiting = self.waiting.saturating_add(1);
            Admission::Wait
        }
    }

    /// An operation that was told to wait asks again.
    pub fn retry(&mut self) -> (r: Admission)
        requires
            old(self)@.wf(),
        ensures
            r == admission(old(self)@),
            final(self)@ == after_retry(old(self)@),
            final(self)@.wf(),
    {
        if self.closed {
            self.waiting = self.waiting.saturating_sub(1);
            Admission::Closed
        } else if self.in_use < self.max_connections {
            self.in_use = self.in_use + 1;
            self.waiting = self.waiting.saturating_sub(1);
            Admission::Granted
        } else {
            Admission::Wait
        }
    }

    /// A waiting operation was cancelled before it got a slot.
    pub fn cancel_wait(&mut self)
        ensures
            final(self)@ == (GovernorState {
                waiting: if old(self)@.waiting > 0 {
                    (old(self)@.waiting - 1) as u32
                } else {
                    0u32
                },
                ..old(self)@
            }),
    {
        self.waiting = self.waiting.saturating_sub(1);
    }

    /// An operation gives its slot back, whether it succeeded, failed or was
    /// cancelled.
    pub fn release(&mut self)
        requires
            old(self)@.wf(),
            old(self)@.in_use > 0,
        ensures
            final(self)@ == after_release(old(self)@),
            final(self)@.wf(),
    {
        self.in_use = self.in_use - 1;
    }

    /// Shuts the governor down: from now on every request for a slot is refused.
    pub fn shutdown(&mut self)
        ensures
            final(self)@ == (GovernorState { closed: true, ..old(self)@ }),
    {
        self.closed = true;
    }

    /// Records whether a duplex stream is connected.
    pub fn mark_connected(&mut self, connected: bool)
        ensures
            final(self)@ == (GovernorState { connected, ..old(self)@ }),
    {
        self.connected = connected;
    }

    /// Records the latency of the last completed operation (milliseconds).
    pub fn record_latency(&mut self, latency: u64)
        ensures
            final(self)@ == (GovernorState { latency, ..old(self)@ }),
    {
        self.latency = latency;
    }

    /// The current status snapshot.
    pub fn status(&self) -> (r: NetworkStatus)
        ensures
            r == self@.status(),
    {
        NetworkStatus {
            connected: self.connected,
            latency: self.latency,
            active_connections: self.in_use,
            pending_requests: self.waiting,
        }
    }
}

/// Admission never exceeds the pool: from a well-formed state, a grant is given
/// only while a slot is free, and every transition keeps the slots in use
/// within the pool.
pub proof fn lemma_admission_bounded(g: GovernorState)
    requires
        g.wf(),
    ensures
        admission(g) == Admission::Granted ==> g.in_use < g.max_connections,
        after_acquire(g).wf(),
        after_retry(g).wf(),
        g.in_use > 0 ==> after_release(g).wf(),
{
}

/// With a single slot, operations run one at a time: while the first holds the
/// slot a second one waits, even when it asks again, and it is granted the slot
/// once the first releases it.
pub proof fn lemma_single_slot_serializes(g: GovernorState)
    requires
        g.wf(),
        g.max_connections == 1,
        g.in_use == 0,
        !g.closed,
    ensures
        admission(g) == Admission::Granted,
        admission(after_acquire(g)) == Admission::Wait,
        admission(after_acquire(after_acquire(g))) == Admission::Wait,
        admission(after_release(after_acquire(after_acquire(g)))) == Admission::Granted,
{
}

} // verus!
