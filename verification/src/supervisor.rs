//! The supervisor: the outer loop driving update cycles forever.
//!
//! Each round runs cycles until one succeeds: a failure is followed by a
//! short fixed delay and another attempt, the first success by the long
//! between-updates sleep, after which a new round starts. Retries are
//! unbounded and uniform by design: no backoff growth, no retry cap, no
//! jitter. The driver performs the cycles and the sleeps; the supervisor
//! only decides what comes next.

use vstd::prelude::*;

verus! {

/// Where the supervisor stands.
#[derive(Clone, Copy, Debug, PartialEq, Eq, Structural)]
pub enum SupervisorPhase {
    /// A cycle should run now.
    Attempting,
    /// The last cycle failed; the short retry delay runs before the next attempt.
    Backoff,
    /// The last cycle succeeded; the long between-updates sleep runs.
    Idle,
}

/// What the driver is asked to do next.
#[derive(Clone, Copy, Debug, PartialEq, Eq, Structural)]
pub enum SupervisorAction {
    /// Run one update cycle and report whether it succeeded.
    RunCycle,
    /// Sleep the short retry delay, then report back.
    SleepShort,
    /// Sleep the long between-updates interval, then report back.
    SleepLong,
}

/// The phase after one cycle's result: success ends the round, failure
/// backs off for another attempt.
pub open spec fn phase_after_result(success: bool) -> SupervisorPhase {
    if success {
        SupervisorPhase::Idle
    } else {
        SupervisorPhase::Backoff
    }
}

/// How many cycle attempts one round makes, given the results the attempts
/// will see in order: every failure is followed by another attempt, and the
/// first success ends the round. A round is what lies between two long
/// sleeps.
pub open spec fn attempts_in_round(results: Seq<bool>) -> nat
    decreases results.len(),
{
    if results.len() == 0 {
        0
    } else if results[0] {
        1
    } else {
        1 + attempts_in_round(results.skip(1))
    }
}

/// Law: n consecutive cycle failures followed by one success make exactly
/// n + 1 cycle attempts before the round ends. The supervisor's step
/// contracts place the short delay after each of the n failures and the
/// long sleep only after the success.
pub proof fn lemma_retry_count(results: Seq<bool>, n: int)
    requires
        0 <= n < results.len(),
        forall|i: int| 0 <= i < n ==> !results[i],
        results[n],
    ensures
        attempts_in_round(results) == n + 1,
    decreases n,
{
    if n == 0 {
    } else {
        assert(!results[0]);
        assert(forall|i: int| 0 <= i < n - 1 ==> !results.skip(1)[i]);
        assert(results.skip(1)[n - 1]);
        lemma_retry_count(results.skip(1), n - 1);
    }
}

/// The supervisor's state: its phase, and a count of the cycle attempts
/// the current round has made so far.
pub struct Supervisor {
    /// Where the supervisor stands.
    pub phase: SupervisorPhase,
    /// How many cycle attempts the current round has made.
    pub attempts: Ghost<nat>,
}

impl Supervisor {
    /// A fresh supervisor, about to make the first attempt of its first round.
    pub fn new() -> (s: Supervisor)
        ensures
            s.phase is Attempting,
            s.attempts@ == 0,
    {
        Supervisor { phase: SupervisorPhase::Attempting, attempts: Ghost(0nat) }
    }

    /// What the driver should do in the current phase.
    pub fn next_action(&self) -> (a: SupervisorAction)
        ensures
            self.phase is Attempting <==> a is RunCycle,
            self.phase is Backoff <==> a is SleepShort,
            self.phase is Idle <==> a is SleepLong,
    {
        match self.phase {
            SupervisorPhase::Attempting => SupervisorAction::RunCycle,
            SupervisorPhase::Backoff => SupervisorAction::SleepShort,
            SupervisorPhase::Idle => SupervisorAction::SleepLong,
        }
    }

    /// Takes one cycle's result: a success ends the round with the long
    /// sleep ahead, a failure leads to the short delay and another attempt.
    /// Either way the attempt has happened, so the round's count grows by one.
    pub fn on_cycle_result(&mut self, success: bool)
        requires
            old(self).phase is Attempting,
        ensures
            final(self).phase == phase_after_result(success),
            final(self).attempts@ == old(self).attempts@ + 1,
    {
        self.attempts = Ghost(self.attempts@ + 1);
        self.phase = if success {
            SupervisorPhase::Idle
        } else {
            SupervisorPhase::Backoff
        };
    }

    /// The requested sleep has elapsed; attempt again. The long sleep ends
    /// the round, so the attempt count starts over; the short delay keeps
    /// the round — and its count — going.
    pub fn on_slept(&mut self)
        requires
            old(self).phase is Backoff || old(self).phase is Idle,
        ensures
            final(self).phase is Attempting,
            old(self).phase is Backoff ==> final(self).attempts@ == old(self).attempts@,
            old(self).phase is Idle ==> final(self).attempts@ == 0,
    {
        if self.phase == SupervisorPhase::Idle {
            self.attempts = Ghost(0nat);
        }
        self.phase = SupervisorPhase::Attempting;
    }
}

} // verus!
