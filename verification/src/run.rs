use vstd::prelude::*;

verus! {

/// Where a whole run stands. A run moves forward one phase at a time and
/// every failure, wherever it strikes, ends it.
#[derive(Clone, Copy, Debug, PartialEq, Eq, Structural)]
pub enum RunPhase {
    Idle,
    Enumerating,
    Capturing,
    Aggregated,
    Locking,
    Done,
    Aborted,
}

/// The milestones a run can report: the forward steps of the pipeline, and
/// failure.
#[derive(Clone, Copy, Debug, PartialEq, Eq, Structural)]
pub enum RunStep {
    Started,
    DisplaysEnumerated,
    AllTasksSucceeded,
    LockerStarted,
    LockerExited,
    Failed,
}

/// The one lawful successor of a phase under a step: failure aborts from any
/// phase, each forward step is accepted only in its own phase, and an
/// out-of-order step aborts too.
pub open spec fn next_phase_spec(phase: RunPhase, step: RunStep) -> RunPhase {
    match (phase, step) {
        (_, RunStep::Failed) => RunPhase::Aborted,
        (RunPhase::Idle, RunStep::Started) => RunPhase::Enumerating,
        (RunPhase::Enumerating, RunStep::DisplaysEnumerated) => RunPhase::Capturing,
        (RunPhase::Capturing, RunStep::AllTasksSucceeded) => RunPhase::Aggregated,
        (RunPhase::Aggregated, RunStep::LockerStarted) => RunPhase::Locking,
        (RunPhase::Locking, RunStep::LockerExited) => RunPhase::Done,
        _ => RunPhase::Aborted,
    }
}

/// Advance the run by one step.
pub fn advance(phase: RunPhase, step: RunStep) -> (next: RunPhase)
    ensures
        next == next_phase_spec(phase, step),
{
    match (phase, step) {
        (_, RunStep::Failed) => RunPhase::Aborted,
        (RunPhase::Idle, RunStep::Started) => RunPhase::Enumerating,
        (RunPhase::Enumerating, RunStep::DisplaysEnumerated) => RunPhase::Capturing,
        (RunPhase::Capturing, RunStep::AllTasksSucceeded) => RunPhase::Aggregated,
        (RunPhase::Aggregated, RunStep::LockerStarted) => RunPhase::Locking,
        (RunPhase::Locking, RunStep::LockerExited) => RunPhase::Done,
        _ => RunPhase::Aborted,
    }
}

/// A failure moves the run to `Aborted` from every phase.
pub proof fn lemma_failure_always_aborts(phase: RunPhase)
    ensures
        next_phase_spec(phase, RunStep::Failed) == RunPhase::Aborted,
{
}

/// Locking is entered only from a fully aggregated run, by launching the
/// locker: a run that failed anywhere can never reach the locker.
pub proof fn lemma_locking_only_after_aggregation(phase: RunPhase, step: RunStep)
    ensures
        next_phase_spec(phase, step) == RunPhase::Locking ==> phase == RunPhase::Aggregated && step
            == RunStep::LockerStarted,
{
}

/// An aborted run stays aborted, whatever is reported afterwards.
pub proof fn lemma_aborted_is_final(step: RunStep)
    ensures
        next_phase_spec(RunPhase::Aborted, step) == RunPhase::Aborted,
{
}

} // verus!
