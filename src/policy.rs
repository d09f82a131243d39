//! How an asynchronous drop ended, and what teardown makes of it.
use vstd::prelude::*;

verus! {

/// Why an asynchronous drop did not finish cleanly.
#[derive(Debug)]
pub enum AsyncDropError {
    /// The drop work reported a failure of its own; the cause is kept as text.
    UnexpectedError(String),
    /// The drop work did not finish before its deadline.
    Timeout,
}

/// What to do when a drop fails.
#[derive(Debug, Clone, Copy, PartialEq, Eq, Structural)]
pub enum DropFailAction {
    /// Ignore the failed drop.
    Continue,
    /// Elevate the drop failure to a panic.
    Panic,
}

/// How one asynchronous drop ended.
#[derive(Debug)]
pub enum DropOutcome {
    /// The drop work ran to completion and reported no failure.
    Success,
    /// The deadline passed first, or the drop work itself reported a timeout.
    Timeout,
    /// The drop work reported a failure, with its cause.
    Failed(String),
}

/// Why teardown cannot return quietly.
#[derive(Debug)]
pub enum DropFault {
    /// After the drop, `reset` left the value unequal to the type's empty
    /// instance, so a later copy of it could skip work it still owes.
    Inconsistent,
    /// The drop failed or timed out under [`DropFailAction::Panic`].
    Escalated(AsyncDropError),
}

/// The outcome of a drop raced against its deadline: `None` when the deadline
/// won, otherwise what the drop work returned.
pub open spec fn outcome_of(race: Option<Result<(), AsyncDropError>>) -> DropOutcome {
    match race {
        None => DropOutcome::Timeout,
        Some(Ok(())) => DropOutcome::Success,
        Some(Err(AsyncDropError::Timeout)) => DropOutcome::Timeout,
        Some(Err(AsyncDropError::UnexpectedError(cause))) => DropOutcome::Failed(cause),
    }
}

/// The error that `action` raises for `outcome`, if any: a successful drop
/// raises none, and neither does any outcome under `Continue`.
pub open spec fn escalation_of(outcome: DropOutcome, action: DropFailAction) -> Option<AsyncDropError> {
    match outcome {
        DropOutcome::Success => None,
        DropOutcome::Timeout => match action {
            DropFailAction::Continue => None,
            DropFailAction::Panic => Some(AsyncDropError::Timeout),
        },
        DropOutcome::Failed(cause) => match action {
            DropFailAction::Continue => None,
            DropFailAction::Panic => Some(AsyncDropError::UnexpectedError(cause)),
        },
    }
}

/// How teardown ends: a failed reset check is fatal whatever the drop did;
/// otherwise the failure action decides.
pub open spec fn conclusion_of(
    consistent: bool,
    outcome: DropOutcome,
    action: DropFailAction,
) -> Result<(), DropFault> {
    if !consistent {
        Err(DropFault::Inconsistent)
    } else {
        match escalation_of(outcome, action) {
            None => Ok(()),
            Some(e) => Err(DropFault::Escalated(e)),
        }
    }
}

impl DropOutcome {
    /// Classifies a drop raced against its deadline (`None`: the deadline won).
    pub fn from_race(race: Option<Result<(), AsyncDropError>>) -> (r: DropOutcome)
        ensures
            r == outcome_of(race),
    {
        match race {
            None => DropOutcome::Timeout,
            Some(Ok(())) => DropOutcome::Success,
            Some(Err(AsyncDropError::Timeout)) => DropOutcome::Timeout,
            Some(Err(AsyncDropError::UnexpectedError(cause))) => DropOutcome::Failed(cause),
        }
    }

    /// Whether the drop work ran to completion without failure.
    pub fn is_success(&self) -> (r: bool)
        ensures
            r == (*self is Success),
    {
        match self {
            DropOutcome::Success => true,
            _ => false,
        }
    }
}

impl DropFailAction {
    /// Whether failures are elevated to a panic.
    pub fn escalates(&self) -> (r: bool)
        ensures
            r == (*self == DropFailAction::Panic),
    {
        match self {
            DropFailAction::Continue => false,
            DropFailAction::Panic => true,
        }
    }
}

/// Applies `action` to `outcome`: `Err` carries the error that teardown must
/// raise, `Ok` means teardown completes quietly.
pub fn resolve(outcome: DropOutcome, action: DropFailAction) -> (r: Result<(), AsyncDropError>)
    ensures
        r is Ok <==> escalation_of(outcome, action) is None,
        r matches Err(e) ==> escalation_of(outcome, action) == Some(e),
{
    match outcome {
        DropOutcome::Success => Ok(()),
        DropOutcome::Timeout => if action.escalates() {
            Err(AsyncDropError::Timeout)
        } else {
            Ok(())
        },
        DropOutcome::Failed(cause) => if action.escalates() {
            Err(AsyncDropError::UnexpectedError(cause))
        } else {
            Ok(())
        },
    }
}

/// Ends a teardown: `consistent` says whether the reset value came back equal
/// to the empty instance, `outcome` how the drop work ended.
pub fn conclude(
    consistent: bool,
    outcome: DropOutcome,
    action: DropFailAction,
) -> (r: Result<(), DropFault>)
    ensures
        r == conclusion_of(consistent, outcome, action),
{
    if !consistent {
        return Err(DropFault::Inconsistent);
    }
    match resolve(outcome, action) {
        Ok(()) => Ok(()),
        Err(e) => Err(DropFault::Escalated(e)),
    }
}

/// Given the same failed or late drop, `Continue` completes teardown quietly
/// and `Panic` raises that very failure.
pub proof fn lemma_policy_effect(outcome: DropOutcome)
    requires
        !(outcome is Success),
    ensures
        escalation_of(outcome, DropFailAction::Continue) is None,
        conclusion_of(true, outcome, DropFailAction::Continue) == Ok::<(), DropFault>(()),
        escalation_of(outcome, DropFailAction::Panic) is Some,
        conclusion_of(true, outcome, DropFailAction::Panic) is Err,
        outcome is Timeout ==> escalation_of(outcome, DropFailAction::Panic) == Some(
            AsyncDropError::Timeout,
        ),
        outcome matches DropOutcome::Failed(cause) ==> escalation_of(
            outcome,
            DropFailAction::Panic,
        ) == Some(AsyncDropError::UnexpectedError(cause)),
{
}

/// A reset that does not restore the empty instance ends teardown as
/// inconsistent, whatever the drop did and whatever the failure action.
pub proof fn lemma_inconsistent_reset_is_fatal(outcome: DropOutcome, action: DropFailAction)
    ensures
        conclusion_of(false, outcome, action) == Err::<(), DropFault>(DropFault::Inconsistent),
{
}

} // verus!
