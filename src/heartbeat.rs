//! The heartbeat scheduler's decisions. The loop that sleeps and sends runs
//! outside the library; at each turn it asks what to do next, and reports
//! how the send went.
use vstd::prelude::*;

verus! {

/// How long an idle scheduler waits before it looks at the interval again.
pub const IDLE_POLL_MS: u64 = 100;

/// Where the scheduler stands.
#[derive(Debug, Clone, Copy, PartialEq, Eq, Structural)]
pub enum HeartbeatPhase {
    /// The interval is not known yet: nothing is sent.
    Idle,
    /// The interval is known: a heartbeat goes out every interval.
    Active,
    /// The transport closed or the session ended: the loop is over.
    Stopped,
}

/// What the heartbeat loop does next.
#[derive(Debug, Clone, Copy, PartialEq, Eq, Structural)]
pub enum HeartbeatAction {
    /// Sleep this long, then ask again; send nothing.
    Wait { millis: u64 },
    /// Sleep this long, then send a heartbeat with the session's sequence
    /// number at that moment.
    SleepThenSend { millis: u64 },
    /// Leave the loop.
    Exit,
}

/// How a heartbeat send went.
#[derive(Debug, Clone, Copy, PartialEq, Eq, Structural)]
pub enum SendOutcome {
    Sent,
    /// A transient failure: it is logged, and the next cycle proceeds.
    Failed,
    /// The transport is closed.
    TransportClosed,
}

#[derive(Debug)]
pub struct HeartbeatScheduler {
    pub phase: HeartbeatPhase,
    /// Heartbeats sent so far (saturating).
    pub sent: u64,
}

/// The next phase and action, given the session's heartbeat interval
/// (0 while unknown) and whether the session is still open.
pub open spec fn heartbeat_step(phase: HeartbeatPhase, interval_ms: u64, session_open: bool) -> (
    HeartbeatPhase,
    HeartbeatAction,
) {
    if phase == HeartbeatPhase::Stopped || !session_open {
        (HeartbeatPhase::Stopped, HeartbeatAction::Exit)
    } else if interval_ms == 0 {
        (phase, HeartbeatAction::Wait { millis: IDLE_POLL_MS })
    } else {
        (HeartbeatPhase::Active, HeartbeatAction::SleepThenSend { millis: interval_ms })
    }
}

/// The phase after a send went as `outcome`.
pub open spec fn phase_after_send(phase: HeartbeatPhase, outcome: SendOutcome) -> HeartbeatPhase {
    if outcome == SendOutcome::TransportClosed {
        HeartbeatPhase::Stopped
    } else {
        phase
    }
}

impl HeartbeatScheduler {
    pub fn new() -> (r: HeartbeatScheduler)
        ensures
            r.phase == HeartbeatPhase::Idle,
            r.sent == 0,
    {
        HeartbeatScheduler { phase: HeartbeatPhase::Idle, sent: 0 }
    }

    /// Decides the loop's next turn.
    pub fn next_action(&mut self, interval_ms: u64, session_open: bool) -> (r: HeartbeatAction)
        ensures
            (final(self).phase, r) == heartbeat_step(old(self).phase, interval_ms, session_open),
            final(self).sent == old(self).sent,
    {
        if self.phase == HeartbeatPhase::Stopped || !session_open {
            self.phase = HeartbeatPhase::Stopped;
            HeartbeatAction::Exit
        } else if interval_ms == 0 {
            HeartbeatAction::Wait { millis: IDLE_POLL_MS }
        } else {
            self.phase = HeartbeatPhase::Active;
            HeartbeatAction::SleepThenSend { millis: interval_ms }
        }
    }

    /// Records how a send went: a transient failure changes nothing, a
    /// closed transport stops the scheduler.
    pub fn record_send(&mut self, outcome: SendOutcome)
        ensures
            final(self).phase == phase_after_send(old(self).phase, outcome),
            final(self).sent == if outcome == SendOutcome::Sent && old(self).sent < u64::MAX {
                (old(self).sent + 1) as u64
            } else {
                old(self).sent
            },
    {
        match outcome {
            SendOutcome::Sent => {
                if self.sent < u64::MAX {
                    self.sent = self.sent + 1;
                }
            },
            SendOutcome::Failed => {},
            SendOutcome::TransportClosed => {
                self.phase = HeartbeatPhase::Stopped;
            },
        }
    }
}

/// The scheduler leaves `Idle` at most once: from `Active` it never returns
/// to `Idle` (a zero interval only pauses it), and `Stopped` is final.
pub proof fn lemma_scheduler_never_returns_to_idle(interval_ms: u64, session_open: bool, outcome: SendOutcome)
    ensures
        heartbeat_step(HeartbeatPhase::Active, interval_ms, session_open).0 != HeartbeatPhase::Idle,
        phase_after_send(HeartbeatPhase::Active, outcome) != HeartbeatPhase::Idle,
        heartbeat_step(HeartbeatPhase::Stopped, interval_ms, session_open) == (
            HeartbeatPhase::Stopped,
            HeartbeatAction::Exit,
        ),
        phase_after_send(HeartbeatPhase::Stopped, outcome) == HeartbeatPhase::Stopped,
{
}

} // verus!
