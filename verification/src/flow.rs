//! The setup sequence of one run, as a step machine.
//!
//! A run touches the driver four times, strictly in order: ask whether the
//! database exists, create it when the answer was no, open the connection
//! pool, run the query. The driver work itself happens outside; this module
//! fixes which step may follow which, so that a caller performing the steps
//! cannot reorder them. Setup failures are fatal to the caller and have no
//! step of their own: a step is only ever left once its work succeeded.

use vstd::prelude::*;

verus! {

/// The steps of one run, in the order they may happen.
#[derive(Clone, Copy, Debug, PartialEq, Eq, Structural)]
pub enum SetupStep {
    CheckExistence,
    CreateDatabase,
    OpenPool,
    RunQuery,
    Finished,
}

/// The step that follows `current` once its work succeeded.
/// `database_exists` is the existence check's answer; it is read at that
/// step alone.
pub open spec fn spec_next(current: SetupStep, database_exists: bool) -> SetupStep {
    match current {
        SetupStep::CheckExistence => if database_exists {
            SetupStep::OpenPool
        } else {
            SetupStep::CreateDatabase
        },
        SetupStep::CreateDatabase => SetupStep::OpenPool,
        SetupStep::OpenPool => SetupStep::RunQuery,
        SetupStep::RunQuery => SetupStep::Finished,
        SetupStep::Finished => SetupStep::Finished,
    }
}

/// Advance the run by one step.
pub fn next_step(current: SetupStep, database_exists: bool) -> (next: SetupStep)
    ensures
        next == spec_next(current, database_exists),
{
    match current {
        SetupStep::CheckExistence => if database_exists {
            SetupStep::OpenPool
        } else {
            SetupStep::CreateDatabase
        },
        SetupStep::CreateDatabase => SetupStep::OpenPool,
        SetupStep::OpenPool => SetupStep::RunQuery,
        SetupStep::RunQuery => SetupStep::Finished,
        SetupStep::Finished => SetupStep::Finished,
    }
}

/// How many steps a run can still take from `s`.
pub open spec fn step_rank(s: SetupStep) -> nat {
    match s {
        SetupStep::CheckExistence => 4,
        SetupStep::CreateDatabase => 3,
        SetupStep::OpenPool => 2,
        SetupStep::RunQuery => 1,
        SetupStep::Finished => 0,
    }
}

/// Creation is entered exactly from an existence check that answered no:
/// a run whose check finds the database already present never attempts to
/// create it, so running twice over the same location creates it once.
pub proof fn lemma_creation_exactly_when_absent(current: SetupStep, database_exists: bool)
    ensures
        spec_next(current, database_exists) == SetupStep::CreateDatabase <==> (current
            == SetupStep::CheckExistence && !database_exists),
{
}

/// Every step strictly advances the run: a caller performing steps until
/// `Finished` is done after at most four pieces of driver work, whatever the
/// existence check answered.
pub proof fn lemma_flow_advances(current: SetupStep, database_exists: bool)
    requires
        current != SetupStep::Finished,
    ensures
        step_rank(spec_next(current, database_exists)) < step_rank(current),
{
}

} // verus!
