//! The scheduling loop's state machine and the running count of
//! accepted snapshots.

use vstd::prelude::*;
use crate::cycle::CycleOutcome;

verus! {

/// The counter value after one cycle outcome is recorded: one more on
/// `Accepted`, unchanged on `Rejected` or `Failed`.
pub open spec fn next_count(count: nat, outcome: CycleOutcome) -> nat {
    if outcome is Accepted {
        count + 1
    } else {
        count
    }
}

/// How many outcomes of a run were `Accepted`.
pub open spec fn accepted_count(outcomes: Seq<CycleOutcome>) -> nat
    decreases outcomes.len(),
{
    if outcomes.len() == 0 {
        0
    } else {
        accepted_count(outcomes.drop_last()) + (if outcomes.last() is Accepted {
            1nat
        } else {
            0nat
        })
    }
}

/// The counter value after a run of outcomes is recorded in order.
pub open spec fn count_after(count: nat, outcomes: Seq<CycleOutcome>) -> nat
    decreases outcomes.len(),
{
    if outcomes.len() == 0 {
        count
    } else {
        next_count(count_after(count, outcomes.drop_last()), outcomes.last())
    }
}

/// Law: after any run of cycles, the counter equals its starting value
/// plus exactly the number of `Accepted` outcomes, however many
/// `Rejected` or `Failed` outcomes were interleaved.
pub proof fn lemma_count_after_adds_accepted(count: nat, outcomes: Seq<CycleOutcome>)
    ensures
        count_after(count, outcomes) == count + accepted_count(outcomes),
    decreases outcomes.len(),
{
    if outcomes.len() > 0 {
        lemma_count_after_adds_accepted(count, outcomes.drop_last());
    }
}

/// The running count of successful captures. Mutated only when a cycle
/// outcome is recorded; never decremented, never reset.
#[derive(Debug)]
pub struct CaptureCounter {
    count: u64,
}

impl CaptureCounter {
    /// The current count.
    pub closed spec fn spec_count(&self) -> nat {
        self.count as nat
    }

    /// A fresh counter, starting at zero.
    pub fn new() -> (c: CaptureCounter)
        ensures
            c.spec_count() == 0,
    {
        CaptureCounter { count: 0 }
    }

    /// Reads the count, as the metrics endpoint does.
    pub fn value(&self) -> (v: u64)
        ensures
            v == self.spec_count(),
    {
        self.count
    }

    /// Records one cycle outcome: the count grows by one on `Accepted`
    /// and is untouched otherwise.
    pub fn record(&mut self, outcome: &CycleOutcome)
        requires
            outcome is Accepted ==> old(self).spec_count() < u64::MAX,
        ensures
            final(self).spec_count() == next_count(old(self).spec_count(), *outcome),
    {
        match outcome {
            CycleOutcome::Accepted => {
                self.count = self.count + 1;
            },
            _ => {},
        }
    }
}

/// The scheduler's two states: waiting for the timer, or executing a
/// cycle. There is no terminal state.
#[derive(Debug, Clone, Copy, PartialEq, Eq, Structural)]
pub enum SchedulerPhase {
    Idle,
    Running,
}

/// The scheduler: runs cycles strictly sequentially at a fixed interval,
/// isolating failures between iterations and counting accepted frames.
#[derive(Debug)]
pub struct Scheduler {
    phase: SchedulerPhase,
    counter: CaptureCounter,
    sleep_secs: u64,
}

impl Scheduler {
    /// Which state the scheduler is in.
    pub closed spec fn spec_phase(&self) -> SchedulerPhase {
        self.phase
    }

    /// The count of accepted snapshots so far.
    pub closed spec fn spec_count(&self) -> nat {
        self.counter.spec_count()
    }

    /// The configured interval between cycle completions, in seconds.
    pub closed spec fn spec_interval(&self) -> u64 {
        self.sleep_secs
    }

    /// A fresh scheduler: idle, with no captures counted.
    pub fn new(sleep_secs: u64) -> (s: Scheduler)
        ensures
            s.spec_phase() == SchedulerPhase::Idle,
            s.spec_count() == 0,
            s.spec_interval() == sleep_secs,
    {
        Scheduler { phase: SchedulerPhase::Idle, counter: CaptureCounter::new(), sleep_secs }
    }

    /// The timer fired: move from `Idle` to `Running`. Nothing else
    /// changes.
    pub fn begin_cycle(&mut self)
        requires
            old(self).spec_phase() == SchedulerPhase::Idle,
        ensures
            final(self).spec_phase() == SchedulerPhase::Running,
            final(self).spec_count() == old(self).spec_count(),
            final(self).spec_interval() == old(self).spec_interval(),
    {
        self.phase = SchedulerPhase::Running;
    }

    /// A cycle completed: record its outcome and return to `Idle`
    /// unconditionally, whatever the outcome was. The process never
    /// terminates because of a single bad cycle.
    pub fn complete_cycle(&mut self, outcome: &CycleOutcome)
        requires
            old(self).spec_phase() == SchedulerPhase::Running,
            outcome is Accepted ==> old(self).spec_count() < u64::MAX,
        ensures
            final(self).spec_phase() == SchedulerPhase::Idle,
            final(self).spec_count() == next_count(old(self).spec_count(), *outcome),
            final(self).spec_interval() == old(self).spec_interval(),
    {
        self.counter.record(outcome);
        self.phase = SchedulerPhase::Idle;
    }

    /// Reads the count of accepted snapshots.
    pub fn snapshot_count(&self) -> (v: u64)
        ensures
            v == self.spec_count(),
    {
        self.counter.value()
    }

    /// The configured interval between cycle completions, in seconds.
    pub fn interval_secs(&self) -> (v: u64)
        ensures
            v == self.spec_interval(),
    {
        self.sleep_secs
    }

    /// Whether the scheduler is waiting for the timer.
    pub fn is_idle(&self) -> (b: bool)
        ensures
            b == (self.spec_phase() == SchedulerPhase::Idle),
    {
        match self.phase {
            SchedulerPhase::Idle => true,
            SchedulerPhase::Running => false,
        }
    }
}

} // verus!
