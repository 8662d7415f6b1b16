//! Readiness polling: probing the server's address at a fixed interval until
//! it accepts a connection or the attempt budget is spent.
//!
//! The poller decides; the caller connects and sleeps. After each connection
//! attempt the caller reports [`PollEvent::Accepted`] or
//! [`PollEvent::Refused`], after each pause [`PollEvent::Elapsed`], and does
//! what the returned [`PollAction`] says.

use vstd::prelude::*;

verus! {

/// Number of connection attempts before the poller gives up.
pub const MAX_ATTEMPTS: u32 = 150;

/// Pause after a refused attempt, in milliseconds.
pub const RETRY_INTERVAL_MS: u64 = 200;

/// Pause between the first accepted connection and the success signal, in
/// milliseconds.
pub const SETTLE_DELAY_MS: u64 = 300;

/// Where the poller stands.
#[derive(Clone, Copy, PartialEq, Eq, Debug, Structural)]
pub enum PollState {
    /// A connection attempt is due.
    Connecting,
    /// The last attempt was refused; the pause before the next one is running.
    Waiting,
    /// A connection was accepted; the settle delay is running.
    Settling,
    /// Success has been signalled.
    Ready,
    /// The attempt budget was spent without an accepted connection.
    TimedOut,
}

/// What the caller reports to the poller.
#[derive(Clone, Copy, PartialEq, Eq, Debug, Structural)]
pub enum PollEvent {
    /// The connection attempt was accepted.
    Accepted,
    /// The connection attempt failed.
    Refused,
    /// The pause that the poller asked for is over.
    Elapsed,
}

/// What the poller asks the caller to do next.
#[derive(Clone, Copy, PartialEq, Eq, Debug, Structural)]
pub enum PollAction {
    /// Try to connect to the server's address.
    Connect,
    /// Sleep for the given number of milliseconds.
    Sleep { millis: u64 },
    /// The server is ready: signal success.
    Succeed,
    /// The server never became reachable: signal the timeout.
    TimeOut,
    /// Nothing to do: the event did not fit the poller's state.
    Stay,
}

/// The poller: its state and the number of refused attempts so far.
#[derive(Clone, Copy, PartialEq, Eq, Debug, Structural)]
pub struct Poller {
    pub state: PollState,
    pub refused: u32,
}

/// The poller after `event`, and what it asks for.
///
/// An accepted connection starts the settle delay, after which success is
/// signalled. A refused one starts the retry pause, after which the next
/// attempt is made, or the timeout is signalled once [`MAX_ATTEMPTS`]
/// attempts were refused. An event that does not fit the state changes
/// nothing.
pub open spec fn poll_step(p: Poller, event: PollEvent) -> (Poller, PollAction) {
    match (p.state, event) {
        (PollState::Connecting, PollEvent::Accepted) => (
            Poller { state: PollState::Settling, refused: p.refused },
            PollAction::Sleep { millis: SETTLE_DELAY_MS },
        ),
        (PollState::Connecting, PollEvent::Refused) => if p.refused < MAX_ATTEMPTS {
            (
                Poller { state: PollState::Waiting, refused: (p.refused + 1) as u32 },
                PollAction::Sleep { millis: RETRY_INTERVAL_MS },
            )
        } else {
            (p, PollAction::Stay)
        },
        (PollState::Settling, PollEvent::Elapsed) => (
            Poller { state: PollState::Ready, refused: p.refused },
            PollAction::Succeed,
        ),
        (PollState::Waiting, PollEvent::Elapsed) => if p.refused < MAX_ATTEMPTS {
            (Poller { state: PollState::Connecting, refused: p.refused }, PollAction::Connect)
        } else {
            (Poller { state: PollState::TimedOut, refused: p.refused }, PollAction::TimeOut)
        },
        _ => (p, PollAction::Stay),
    }
}

/// The event that reports the outcome of one connection attempt.
pub open spec fn attempt_event(accepted: bool) -> PollEvent {
    if accepted {
        PollEvent::Accepted
    } else {
        PollEvent::Refused
    }
}

/// The poller after the connection attempts in `outcomes`, each followed by
/// the pause that the poller asked for.
pub open spec fn after_attempts(p: Poller, outcomes: Seq<bool>) -> Poller
    decreases outcomes.len(),
{
    if outcomes.len() == 0 {
        p
    } else {
        let attempted = poll_step(p, attempt_event(outcomes[0])).0;
        let rested = poll_step(attempted, PollEvent::Elapsed).0;
        after_attempts(rested, outcomes.drop_first())
    }
}

impl Poller {
    /// A poller is well formed when it never counts more refusals than the
    /// budget allows, attempts only while budget is left, and times out
    /// exactly when the budget is spent.
    pub open spec fn wf(self) -> bool {
        &&& self.refused <= MAX_ATTEMPTS
        &&& self.state == PollState::Connecting ==> self.refused < MAX_ATTEMPTS
        &&& self.state == PollState::Settling ==> self.refused < MAX_ATTEMPTS
        &&& self.state == PollState::Ready ==> self.refused < MAX_ATTEMPTS
        &&& self.state == PollState::Waiting ==> self.refused >= 1
        &&& self.state == PollState::TimedOut ==> self.refused == MAX_ATTEMPTS
    }

    /// Whether the poller has signalled success or timeout.
    pub open spec fn finished(self) -> bool {
        self.state == PollState::Ready || self.state == PollState::TimedOut
    }

    /// A fresh poller: the first connection attempt is due.
    pub fn new() -> (p: Poller)
        ensures
            p == (Poller { state: PollState::Connecting, refused: 0 }),
            p.wf(),
    {
        Poller { state: PollState::Connecting, refused: 0 }
    }

    /// Takes `event` and returns what to do next.
    pub fn on_event(&mut self, event: PollEvent) -> (action: PollAction)
        ensures
            (*final(self), action) == poll_step(*old(self), event),
            old(self).wf() ==> final(self).wf(),
    {
        match (self.state, event) {
            (PollState::Connecting, PollEvent::Accepted) => {
                self.state = PollState::Settling;
                PollAction::Sleep { millis: SETTLE_DELAY_MS }
            },
            (PollState::Connecting, PollEvent::Refused) => {
                if self.refused < MAX_ATTEMPTS {
                    self.state = PollState::Waiting;
                    self.refused = self.refused + 1;
                    PollAction::Sleep { millis: RETRY_INTERVAL_MS }
                } else {
                    PollAction::Stay
                }
            },
            (PollState::Settling, PollEvent::Elapsed) => {
                self.state = PollState::Ready;
                PollAction::Succeed
            },
            (PollState::Waiting, PollEvent::Elapsed) => {
                if self.refused < MAX_ATTEMPTS {
                    self.state = PollState::Connecting;
                    PollAction::Connect
                } else {
                    self.state = PollState::TimedOut;
                    PollAction::TimeOut
                }
            },
            _ => PollAction::Stay,
        }
    }

    /// Whether success was signalled.
    pub fn is_ready(&self) -> (b: bool)
        ensures
            b == (self.state == PollState::Ready),
    {
        self.state == PollState::Ready
    }

    /// Whether the timeout was signalled.
    pub fn is_timed_out(&self) -> (b: bool)
        ensures
            b == (self.state == PollState::TimedOut),
    {
        self.state == PollState::TimedOut
    }
}

/// A step keeps a well-formed poller well formed, and a finished poller
/// stays as it is whatever is reported to it.
pub proof fn lemma_step_preserves(p: Poller, event: PollEvent)
    requires
        p.wf(),
    ensures
        poll_step(p, event).0.wf(),
        p.finished() ==> poll_step(p, event) == (p, PollAction::Stay),
{
}

/// Success is signalled only at the end of the settle delay, which only an
/// accepted connection starts; the timeout only once the whole budget was
/// refused.
pub proof fn lemma_signals(p: Poller, event: PollEvent)
    requires
        p.wf(),
    ensures
        poll_step(p, event).1 == PollAction::Succeed <==> p.state == PollState::Settling && event
            == PollEvent::Elapsed,
        poll_step(p, event).0.state == PollState::Settling && p.state != PollState::Settling
            ==> event == PollEvent::Accepted,
        poll_step(p, event).1 == PollAction::TimeOut <==> p.state == PollState::Waiting && event
            == PollEvent::Elapsed && p.refused == MAX_ATTEMPTS,
{
}

/// Whether the first `n` attempts in `outcomes` were all refused.
pub open spec fn all_refused(outcomes: Seq<bool>, n: int) -> bool {
    forall|j: int| 0 <= j < n ==> !#[trigger] outcomes[j]
}

/// Whether attempt `i` is the first one in `outcomes` that was accepted.
pub open spec fn first_accepted(outcomes: Seq<bool>, i: int) -> bool {
    0 <= i < outcomes.len() && outcomes[i] && all_refused(outcomes, i)
}

/// A fresh poller signals success when an attempt within the budget is
/// accepted, at the first such attempt.
pub proof fn lemma_poll_succeeds(outcomes: Seq<bool>, i: int)
    requires
        first_accepted(outcomes, i),
        i < MAX_ATTEMPTS,
    ensures
        after_attempts(Poller { state: PollState::Connecting, refused: 0 }, outcomes).state
            == PollState::Ready,
{
    lemma_succeeds_from(Poller { state: PollState::Connecting, refused: 0 }, outcomes, i);
}

/// A fresh poller signals the timeout when the first [`MAX_ATTEMPTS`]
/// attempts are all refused, whatever the later ones would give.
pub proof fn lemma_poll_times_out(outcomes: Seq<bool>)
    requires
        outcomes.len() >= MAX_ATTEMPTS,
        all_refused(outcomes, MAX_ATTEMPTS as int),
    ensures
        after_attempts(Poller { state: PollState::Connecting, refused: 0 }, outcomes) == (Poller {
            state: PollState::TimedOut,
            refused: MAX_ATTEMPTS,
        }),
{
    lemma_times_out_from(Poller { state: PollState::Connecting, refused: 0 }, outcomes);
}

/// A fresh poller keeps attempting while fewer than [`MAX_ATTEMPTS`]
/// attempts were made and all of them were refused.
pub proof fn lemma_poll_continues(outcomes: Seq<bool>)
    requires
        outcomes.len() < MAX_ATTEMPTS,
        all_refused(outcomes, outcomes.len() as int),
    ensures
        after_attempts(Poller { state: PollState::Connecting, refused: 0 }, outcomes) == (Poller {
            state: PollState::Connecting,
            refused: outcomes.len() as u32,
        }),
{
    lemma_continues_from(Poller { state: PollState::Connecting, refused: 0 }, outcomes);
}

proof fn lemma_succeeds_from(p: Poller, outcomes: Seq<bool>, i: int)
    requires
        p.wf(),
        p.state == PollState::Connecting,
        first_accepted(outcomes, i),
        p.refused + i < MAX_ATTEMPTS,
    ensures
        after_attempts(p, outcomes).state == PollState::Ready,
    decreases i,
{
    let rest = outcomes.drop_first();
    let attempted = poll_step(p, attempt_event(outcomes[0])).0;
    let rested = poll_step(attempted, PollEvent::Elapsed).0;
    if i == 0 {
        lemma_finished_stays(rested, rest);
    } else {
        assert(!outcomes[0]);
        assert forall|j: int| 0 <= j < i - 1 implies !#[trigger] rest[j] by {
            assert(!outcomes[j + 1]);
        }
        lemma_succeeds_from(rested, rest, i - 1);
    }
}

proof fn lemma_times_out_from(p: Poller, outcomes: Seq<bool>)
    requires
        p.wf(),
        p.state == PollState::Connecting,
        p.refused + outcomes.len() >= MAX_ATTEMPTS,
        all_refused(outcomes, MAX_ATTEMPTS - p.refused),
    ensures
        after_attempts(p, outcomes) == (Poller {
            state: PollState::TimedOut,
            refused: MAX_ATTEMPTS,
        }),
    decreases outcomes.len(),
{
    let rest = outcomes.drop_first();
    let attempted = poll_step(p, attempt_event(outcomes[0])).0;
    let rested = poll_step(attempted, PollEvent::Elapsed).0;
    assert(!outcomes[0]);
    if p.refused + 1 == MAX_ATTEMPTS {
        lemma_finished_stays(rested, rest);
    } else {
        assert forall|j: int| 0 <= j < MAX_ATTEMPTS - rested.refused implies !#[trigger] rest[j]
        by {
            assert(!outcomes[j + 1]);
        }
        lemma_times_out_from(rested, rest);
    }
}

proof fn lemma_continues_from(p: Poller, outcomes: Seq<bool>)
    requires
        p.wf(),
        p.state == PollState::Connecting,
        p.refused + outcomes.len() < MAX_ATTEMPTS,
        all_refused(outcomes, outcomes.len() as int),
    ensures
        after_attempts(p, outcomes) == (Poller {
            state: PollState::Connecting,
            refused: (p.refused + outcomes.len()) as u32,
        }),
    decreases outcomes.len(),
{
    if outcomes.len() > 0 {
        let rest = outcomes.drop_first();
        let attempted = poll_step(p, attempt_event(outcomes[0])).0;
        let rested = poll_step(attempted, PollEvent::Elapsed).0;
        assert(!outcomes[0]);
        assert forall|j: int| 0 <= j < rest.len() implies !#[trigger] rest[j] by {
            assert(!outcomes[j + 1]);
        }
        lemma_continues_from(rested, rest);
    }
}

/// Further attempts do not move a poller that has finished.
proof fn lemma_finished_stays(p: Poller, outcomes: Seq<bool>)
    requires
        p.finished(),
    ensures
        after_attempts(p, outcomes) == p,
    decreases outcomes.len(),
{
    if outcomes.len() > 0 {
        lemma_finished_stays(p, outcomes.drop_first());
    }
}

} // verus!
