//! The liveness protocol: one keepalive is sent on each timer tick, and the
//! next one only after the previous one was acknowledged.

use vstd::prelude::*;

verus! {

/// The state of the heartbeat: when the last keepalive was sent, and whether
/// its acknowledgment is still awaited.
#[derive(Debug, Clone, Copy, PartialEq, Eq, Structural)]
pub struct HeartbeatState {
    pub last_sent_at: u64,
    pub awaiting_ack: bool,
}

/// What the heartbeat coordinator can be told.
#[derive(Debug, Clone, Copy, PartialEq, Eq, Structural)]
pub enum HeartbeatSignal {
    /// The timer fired at the given time.
    TimerFired(u64),
    /// An acknowledgment of the outstanding keepalive was observed.
    AckObserved,
    /// Sending the keepalive failed.
    SendFailed,
}

/// What the coordinator asks of the session.
#[derive(Debug, Clone, Copy, PartialEq, Eq, Structural)]
pub enum HeartbeatVerdict {
    /// Nothing to do.
    Nothing,
    /// Send a keepalive frame now.
    SendKeepalive,
    /// The connection is dead: tear the session down.
    Terminate,
}

/// The period of the heartbeat timer, in milliseconds.
pub const HEARTBEAT_PERIOD_MS: u64 = 30_000;

/// The timer is due when a full period has passed since the last keepalive.
pub open spec fn timer_due(state: HeartbeatState, now: u64, period: u64) -> bool {
    now >= state.last_sent_at + period
}

/// The state after a signal.
pub open spec fn next_state(state: HeartbeatState, signal: HeartbeatSignal) -> HeartbeatState {
    match signal {
        HeartbeatSignal::TimerFired(now) => if state.awaiting_ack {
            state
        } else {
            HeartbeatState { last_sent_at: now, awaiting_ack: true }
        },
        HeartbeatSignal::AckObserved => HeartbeatState { awaiting_ack: false, ..state },
        HeartbeatSignal::SendFailed => state,
    }
}

/// What a signal asks for in a state. A timer tick in `Idle` sends a
/// keepalive; a tick while one is outstanding means that no acknowledgment
/// came in time; a failed send is fatal as well.
pub open spec fn verdict_of(state: HeartbeatState, signal: HeartbeatSignal) -> HeartbeatVerdict {
    match signal {
        HeartbeatSignal::TimerFired(_) => if state.awaiting_ack {
            HeartbeatVerdict::Terminate
        } else {
            HeartbeatVerdict::SendKeepalive
        },
        HeartbeatSignal::AckObserved => HeartbeatVerdict::Nothing,
        HeartbeatSignal::SendFailed => HeartbeatVerdict::Terminate,
    }
}

/// The state after a sequence of signals.
pub open spec fn state_after(start: HeartbeatState, signals: Seq<HeartbeatSignal>) -> HeartbeatState
    decreases signals.len(),
{
    if signals.len() == 0 {
        start
    } else {
        next_state(state_after(start, signals.drop_last()), signals.last())
    }
}

/// The verdict on the signal at position `at` of a sequence of signals.
pub open spec fn verdict_at(
    start: HeartbeatState,
    signals: Seq<HeartbeatSignal>,
    at: int,
) -> HeartbeatVerdict {
    verdict_of(state_after(start, signals.take(at)), signals[at])
}

impl HeartbeatState {
    /// A heartbeat with nothing outstanding.
    pub fn new(now: u64) -> (state: HeartbeatState)
        ensures
            state == (HeartbeatState { last_sent_at: now, awaiting_ack: false }),
    {
        HeartbeatState { last_sent_at: now, awaiting_ack: false }
    }

    /// Tells whether the timer is due at time `now`, for a timer of the
    /// given period.
    pub fn due(&self, now: u64, period: u64) -> (due: bool)
        ensures
            due == timer_due(*self, now, period),
    {
        now >= self.last_sent_at && now - self.last_sent_at >= period
    }

    /// Takes one signal: moves to the next state and says what to do.
    pub fn step(&mut self, signal: HeartbeatSignal) -> (verdict: HeartbeatVerdict)
        ensures
            *final(self) == next_state(*old(self), signal),
            verdict == verdict_of(*old(self), signal),
            verdict == HeartbeatVerdict::SendKeepalive ==> !old(self).awaiting_ack,
            verdict == HeartbeatVerdict::SendKeepalive ==> final(self).awaiting_ack,
    {
        match signal {
            HeartbeatSignal::TimerFired(now) => {
                if self.awaiting_ack {
                    HeartbeatVerdict::Terminate
                } else {
                    self.last_sent_at = now;
                    self.awaiting_ack = true;
                    HeartbeatVerdict::SendKeepalive
                }
            },
            HeartbeatSignal::AckObserved => {
                self.awaiting_ack = false;
                HeartbeatVerdict::Nothing
            },
            HeartbeatSignal::SendFailed => HeartbeatVerdict::Terminate,
        }
    }
}

/// While no acknowledgment is observed, an outstanding keepalive stays
/// outstanding.
pub proof fn lemma_awaiting_until_ack(
    start: HeartbeatState,
    signals: Seq<HeartbeatSignal>,
    from: int,
    to: int,
)
    requires
        0 <= from <= to <= signals.len(),
        state_after(start, signals.take(from)).awaiting_ack,
        forall|k: int| from <= k < to ==> signals[k] != HeartbeatSignal::AckObserved,
    ensures
        state_after(start, signals.take(to)).awaiting_ack,
    decreases to - from,
{
    if from < to {
        lemma_awaiting_until_ack(start, signals, from, to - 1);
        assert(signals.take(to).drop_last() =~= signals.take(to - 1));
    }
}

/// No two keepalives are ever outstanding together: whatever the signals and
/// the state they start from, between any two keepalives that the coordinator
/// sends an acknowledgment was observed.
pub proof fn lemma_one_keepalive_outstanding(
    start: HeartbeatState,
    signals: Seq<HeartbeatSignal>,
    first: int,
    second: int,
)
    requires
        0 <= first < second < signals.len(),
        verdict_at(start, signals, first) == HeartbeatVerdict::SendKeepalive,
        verdict_at(start, signals, second) == HeartbeatVerdict::SendKeepalive,
    ensures
        exists|k: int| first < k < second && signals[k] == HeartbeatSignal::AckObserved,
{
    if forall|k: int| first < k < second ==> signals[k] != HeartbeatSignal::AckObserved {
        // the first keepalive is still outstanding when the second would be sent
        assert(signals.take(first + 1).drop_last() =~= signals.take(first));
        assert(state_after(start, signals.take(first + 1)).awaiting_ack);
        lemma_awaiting_until_ack(start, signals, first + 1, second);
        assert(false);
    }
}

/// A keepalive is only ever sent from `Idle`, and sending it leaves the
/// coordinator awaiting the acknowledgment.
pub proof fn lemma_keepalive_only_from_idle(state: HeartbeatState, signal: HeartbeatSignal)
    ensures
        verdict_of(state, signal) == HeartbeatVerdict::SendKeepalive ==> !state.awaiting_ack
            && next_state(state, signal).awaiting_ack,
{
}

} // verus!
