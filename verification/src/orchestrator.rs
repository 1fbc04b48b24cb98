//! The operation orchestrator: one end-to-end publish as an explicit state
//! machine. The caller performs the outside work (connecting, sleeping,
//! broadcasting, collecting acknowledgments) and feeds the results back as
//! events; every transition is verified against `next_state`.
use vstd::prelude::*;

use crate::errors::Error;

verus! {

/// Why an operation failed short of the deadline.
#[derive(Clone, Copy, Debug, PartialEq, Eq, Structural)]
pub enum FailReason {
    /// No relay connected within the warm-up bound.
    NoRelaysReachable,
    /// The broadcast drew no acceptance from any relay.
    AllRelaysRejected,
}

/// The phases of one publish operation.
#[derive(Clone, Copy, Debug, PartialEq, Eq, Structural)]
pub enum Phase {
    Idle,
    PoolWarming,
    Publishing,
    AwaitingAcks,
    Completed,
    Failed(FailReason),
    TimedOut,
}

/// What the caller reports to the orchestrator.
#[derive(Clone, Copy, Debug, PartialEq, Eq, Structural)]
pub enum OrchEvent {
    /// Keys are resolved and relays registered; begin.
    Start,
    /// One warm-up poll ran and saw this many connected relays.
    ConnectPoll { connected: usize },
    /// The broadcast was sent to the connected relays.
    Broadcasted,
    /// All acknowledgments are in; was at least one an acceptance?
    AcksCollected { any_accepted: bool },
    /// The caller-supplied overall deadline elapsed.
    DeadlineExpired,
}

/// What the caller should do next.
#[derive(Clone, Copy, Debug, PartialEq, Eq, Structural)]
pub enum OrchAction {
    /// Initiate connection attempts to every registered relay.
    BeginConnect,
    /// Sleep one polling interval, then poll the connected count again.
    WaitAndPollAgain,
    /// Broadcast the event to the connected relays.
    Broadcast,
    /// Collect the per-relay acknowledgments.
    CollectAcks,
    /// The operation is over; abandon any in-flight work and report.
    Finish,
    /// The event does not apply to the current phase; do nothing.
    Ignore,
}

/// Is the operation over?
pub open spec fn is_terminal(p: Phase) -> bool {
    p is Completed || p is Failed || p is TimedOut
}

/// The transition relation: from a phase and a warm-up attempt count, on
/// one event, to the next phase and count. The deadline preempts every
/// non-terminal phase; a warm-up poll that sees a connection moves on to
/// publishing; an exhausted warm-up with none fails; acknowledgments
/// decide between completion and rejection; terminal phases absorb all
/// events.
pub open spec fn next_state(p: Phase, attempts: u64, max: u64, ev: OrchEvent) -> (Phase, u64) {
    if ev is DeadlineExpired {
        if is_terminal(p) {
            (p, attempts)
        } else {
            (Phase::TimedOut, attempts)
        }
    } else {
        match (p, ev) {
            (Phase::Idle, OrchEvent::Start) => (Phase::PoolWarming, 0u64),
            (Phase::PoolWarming, OrchEvent::ConnectPoll { connected }) => if connected > 0 {
                (Phase::Publishing, attempts)
            } else if attempts + 1 >= max {
                (Phase::Failed(FailReason::NoRelaysReachable), attempts)
            } else {
                (Phase::PoolWarming, (attempts + 1) as u64)
            },
            (Phase::Publishing, OrchEvent::Broadcasted) => (Phase::AwaitingAcks, attempts),
            (Phase::AwaitingAcks, OrchEvent::AcksCollected { any_accepted }) => if any_accepted {
                (Phase::Completed, attempts)
            } else {
                (Phase::Failed(FailReason::AllRelaysRejected), attempts)
            },
            _ => (p, attempts),
        }
    }
}

/// The action the caller is asked to take on each transition.
pub open spec fn action_spec(p: Phase, attempts: u64, max: u64, ev: OrchEvent) -> OrchAction {
    if ev is DeadlineExpired {
        if is_terminal(p) {
            OrchAction::Ignore
        } else {
            OrchAction::Finish
        }
    } else {
        match (p, ev) {
            (Phase::Idle, OrchEvent::Start) => OrchAction::BeginConnect,
            (Phase::PoolWarming, OrchEvent::ConnectPoll { connected }) => if connected > 0 {
                OrchAction::Broadcast
            } else if attempts + 1 >= max {
                OrchAction::Finish
            } else {
                OrchAction::WaitAndPollAgain
            },
            (Phase::Publishing, OrchEvent::Broadcasted) => OrchAction::CollectAcks,
            (Phase::AwaitingAcks, OrchEvent::AcksCollected { .. }) => OrchAction::Finish,
            _ => OrchAction::Ignore,
        }
    }
}

/// What a finished operation reports: nothing while still under way.
pub open spec fn outcome_spec(p: Phase) -> Option<Result<(), Error>> {
    match p {
        Phase::Completed => Option::Some(Result::Ok(())),
        Phase::Failed(FailReason::NoRelaysReachable) => Option::Some(
            Result::Err(Error::NoRelaysReachable),
        ),
        Phase::Failed(FailReason::AllRelaysRejected) => Option::Some(
            Result::Err(Error::AllRelaysRejected),
        ),
        Phase::TimedOut => Option::Some(Result::Err(Error::OperationTimedOut)),
        _ => Option::None,
    }
}

/// One publish operation's state: its phase, how many warm-up polls have
/// come up empty, and the warm-up bound.
pub struct Orchestrator {
    phase: Phase,
    attempts: u64,
    max_attempts: u64,
}

impl Orchestrator {
    /// The current phase.
    pub closed spec fn phase(&self) -> Phase {
        self.phase
    }

    /// How many warm-up polls have reported zero connections.
    pub closed spec fn attempts(&self) -> u64 {
        self.attempts
    }

    /// The warm-up bound: how many empty polls are tolerated.
    pub closed spec fn max_attempts(&self) -> u64 {
        self.max_attempts
    }

    /// A fresh operation, idle, with the given warm-up bound.
    pub fn new(max_attempts: u64) -> (r: Orchestrator)
        ensures
            r.phase() == Phase::Idle,
            r.attempts() == 0,
            r.max_attempts() == max_attempts,
    {
        Orchestrator { phase: Phase::Idle, attempts: 0, max_attempts }
    }

    /// The current phase.
    pub fn current_phase(&self) -> (r: Phase)
        ensures
            r == self.phase(),
    {
        self.phase
    }

    /// Feeds one event in: the state moves exactly as `next_state` says,
    /// and the returned action is exactly `action_spec`.
    pub fn step(&mut self, ev: OrchEvent) -> (r: OrchAction)
        ensures
            final(self).max_attempts() == old(self).max_attempts(),
            (final(self).phase(), final(self).attempts()) == next_state(
                old(self).phase(),
                old(self).attempts(),
                old(self).max_attempts(),
                ev,
            ),
            r == action_spec(
                old(self).phase(),
                old(self).attempts(),
                old(self).max_attempts(),
                ev,
            ),
    {
        match ev {
            OrchEvent::DeadlineExpired => {
                let terminal = match self.phase {
                    Phase::Completed => true,
                    Phase::Failed(_) => true,
                    Phase::TimedOut => true,
                    _ => false,
                };
                if terminal {
                    OrchAction::Ignore
                } else {
                    self.phase = Phase::TimedOut;
                    OrchAction::Finish
                }
            },
            OrchEvent::Start => {
                match self.phase {
                    Phase::Idle => {
                        self.phase = Phase::PoolWarming;
                        self.attempts = 0;
                        OrchAction::BeginConnect
                    },
                    _ => OrchAction::Ignore,
                }
            },
            OrchEvent::ConnectPoll { connected } => {
                match self.phase {
                    Phase::PoolWarming => {
                        if connected > 0 {
                            self.phase = Phase::Publishing;
                            OrchAction::Broadcast
                        } else {
                            let exhausted = if self.max_attempts == 0 {
                                true
                            } else {
                                self.attempts >= self.max_attempts - 1
                            };
                            if exhausted {
                                self.phase = Phase::Failed(FailReason::NoRelaysReachable);
                                OrchAction::Finish
                            } else {
                                self.attempts = self.attempts + 1;
                                OrchAction::WaitAndPollAgain
                            }
                        }
                    },
                    _ => OrchAction::Ignore,
                }
            },
            OrchEvent::Broadcasted => {
                match self.phase {
                    Phase::Publishing => {
                        self.phase = Phase::AwaitingAcks;
                        OrchAction::CollectAcks
                    },
                    _ => OrchAction::Ignore,
                }
            },
            OrchEvent::AcksCollected { any_accepted } => {
                match self.phase {
                    Phase::AwaitingAcks => {
                        if any_accepted {
                            self.phase = Phase::Completed;
                        } else {
                            self.phase = Phase::Failed(FailReason::AllRelaysRejected);
                        }
                        OrchAction::Finish
                    },
                    _ => OrchAction::Ignore,
                }
            },
        }
    }

    /// The operation's result: nothing while under way; success once
    /// Completed; the matching error kind once Failed or TimedOut.
    pub fn result(&self) -> (r: Option<Result<(), Error>>)
        ensures
            r == outcome_spec(self.phase()),
    {
        match self.phase {
            Phase::Completed => Option::Some(Result::Ok(())),
            Phase::Failed(FailReason::NoRelaysReachable) => Option::Some(
                Result::Err(Error::NoRelaysReachable),
            ),
            Phase::Failed(FailReason::AllRelaysRejected) => Option::Some(
                Result::Err(Error::AllRelaysRejected),
            ),
            Phase::TimedOut => Option::Some(Result::Err(Error::OperationTimedOut)),
            _ => Option::None,
        }
    }
}

/// The hard deadline preempts every non-terminal phase: whatever the
/// operation was doing, the deadline event moves it to TimedOut.
pub proof fn lemma_deadline_preempts(p: Phase, attempts: u64, max: u64)
    requires
        !is_terminal(p),
    ensures
        next_state(p, attempts, max, OrchEvent::DeadlineExpired).0 is TimedOut,
{
}

/// A terminal phase absorbs every further event.
pub proof fn lemma_terminal_absorbing(p: Phase, attempts: u64, max: u64, ev: OrchEvent)
    requires
        is_terminal(p),
    ensures
        next_state(p, attempts, max, ev).0 == p,
{
}

/// Publishing is entered only from warm-up, and only on a poll that saw at
/// least one connected relay: with zero relays reachable, the operation
/// never proceeds to Publishing.
pub proof fn lemma_no_publish_without_connection(p: Phase, attempts: u64, max: u64, ev: OrchEvent)
    requires
        !(p is Publishing),
        next_state(p, attempts, max, ev).0 is Publishing,
    ensures
        p is PoolWarming,
        ev matches OrchEvent::ConnectPoll { connected } && connected > 0,
{
}

/// A warm-up poll that exhausts the bound with zero connections fails the
/// operation with NoRelaysReachable.
pub proof fn lemma_warmup_exhaustion(attempts: u64, max: u64)
    requires
        attempts + 1 >= max,
    ensures
        next_state(Phase::PoolWarming, attempts, max, OrchEvent::ConnectPoll { connected: 0 }).0
            == Phase::Failed(FailReason::NoRelaysReachable),
{
}

/// Where `k` successive warm-up polls, each reporting zero connections,
/// leave the operation.
pub open spec fn run_zero_polls(p: Phase, attempts: u64, max: u64, k: nat) -> (Phase, u64)
    decreases k,
{
    if k == 0 {
        (p, attempts)
    } else {
        let s = next_state(p, attempts, max, OrchEvent::ConnectPoll { connected: 0 });
        run_zero_polls(s.0, s.1, max, (k - 1) as nat)
    }
}

proof fn lemma_run_zero_polls_terminal(p: Phase, attempts: u64, max: u64, k: nat)
    requires
        is_terminal(p),
    ensures
        run_zero_polls(p, attempts, max, k).0 == p,
    decreases k,
{
    if k > 0 {
        lemma_run_zero_polls_terminal(p, attempts, max, (k - 1) as nat)
    }
}

/// A warm-up during which every poll reports zero connections ends, once
/// enough polls have run to exhaust the bound, in Failed with reason
/// NoRelaysReachable — never in Publishing.
pub proof fn lemma_warmup_all_polls_empty(attempts: u64, max: u64, k: nat)
    requires
        k >= 1,
        attempts + k >= max,
    ensures
        run_zero_polls(Phase::PoolWarming, attempts, max, k).0 == Phase::Failed(
            FailReason::NoRelaysReachable,
        ),
    decreases k,
{
    if attempts + 1 >= max {
        lemma_run_zero_polls_terminal(
            Phase::Failed(FailReason::NoRelaysReachable),
            attempts,
            max,
            (k - 1) as nat,
        );
    } else {
        lemma_warmup_all_polls_empty((attempts + 1) as u64, max, (k - 1) as nat);
    }
}

} // verus!
