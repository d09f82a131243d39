//! Asynchronous drop for values that carry the hook themselves, without a
//! wrapper. Whether a value still owes its drop work is decided by comparing it
//! with the type's shared empty instance: teardown swaps the value out for an
//! empty one before the work starts, and resets the swapped-out original once
//! the work is over, so no copy of a dropped value looks like it still owes
//! work.
use crate::policy::{
    conclude,
    conclusion_of,
    outcome_of,
    AsyncDropError,
    DropFailAction,
    DropFault,
    DropOutcome,
};
use std::time::Duration;
use vstd::prelude::*;
use vstd::std_specs::cmp::PartialEqSpec;

verus! {

/// Seconds that the drop work of a value may take, unless its type says
/// otherwise.
pub const DEFAULT_DROP_TIMEOUT_SECS: u64 = 3;

/// The span of `secs` whole seconds.
pub uninterp spec fn span_of_secs(secs: u64) -> Duration;

/// Relies on `Duration::from_secs`: the span of a count of whole seconds,
/// which depends on that count alone.
#[verifier::external_body]
fn whole_seconds(secs: u64) -> (r: Duration)
    ensures
        r == span_of_secs(secs),
{
    Duration::from_secs(secs)
}

/// Types that can reset themselves to their default value.
pub trait ResetDefault {
    /// Sets every field to its type's default value.
    fn reset_to_default(&mut self);
}

/// The synchronous side of a type whose drop work is asynchronous: how to
/// reset it once the work is over, how long the work may take, and what to do
/// when it fails. A value equal to the type's default owes no drop work.
pub trait AsyncDrop: Default + PartialEq + Eq + ResetDefault {
    /// Brings the value back to the type's default, so that a later drop of it
    /// (or of a copy of it) does no work again.
    fn reset(&mut self) {
        self.reset_to_default();
    }

    /// How long the drop work may take.
    fn drop_timeout(&self) -> Duration {
        whole_seconds(DEFAULT_DROP_TIMEOUT_SECS)
    }

    /// What to do when the drop work fails or times out.
    fn drop_fail_action(&self) -> DropFailAction {
        DropFailAction::Continue
    }
}

/// Whether `value` has no drop work left: it equals `empty`, the type's shared
/// empty instance.
pub fn is_already_finalized<T: PartialEq>(value: &T, empty: &T) -> (r: bool)
    ensures
        T::obeys_eq_spec() ==> r == value.eq_spec(empty),
{
    value.eq(empty)
}

/// The first step of teardown. A value equal to `empty` is left as it is and
/// nothing is handed out. Any other value is handed out for its drop work, and
/// a fresh default value takes its place before that work begins.
pub fn detach<T: AsyncDrop>(value: &mut T, empty: &T) -> (r: Option<T>)
    ensures
        T::obeys_eq_spec() ==> (r is None <==> (*old(value)).eq_spec(empty)),
        r is None ==> *final(value) == *old(value),
        r matches Some(original) ==> original == *old(value),
{
    if is_already_finalized(value, empty) {
        return None;
    }
    let mut original = T::default();
    std::mem::swap(value, &mut original);
    Some(original)
}

/// Resets a value whose drop work is over and tells whether it now equals
/// `empty`.
pub fn reset_and_check<T: AsyncDrop>(original: &mut T, empty: &T) -> (r: bool)
    ensures
        T::obeys_eq_spec() ==> r == (*final(original)).eq_spec(empty),
{
    original.reset();
    is_already_finalized(original, empty)
}

/// The last step of teardown, once the drop work of `original` is over:
/// `race` is what it returned, or `None` when its deadline passed first, and
/// `action` is what its type asked for on failure. The original is reset; a
/// reset that does not bring it back to `empty` is fatal, and otherwise the
/// failure action decides.
pub fn finish_drop<T: AsyncDrop>(
    original: &mut T,
    empty: &T,
    action: DropFailAction,
    race: Option<Result<(), AsyncDropError>>,
) -> (r: Result<(), DropFault>)
    ensures
        T::obeys_eq_spec() ==> r == conclusion_of(
            (*final(original)).eq_spec(empty),
            outcome_of(race),
            action,
        ),
{
    let consistent = reset_and_check(original, empty);
    conclude(consistent, DropOutcome::from_race(race), action)
}

/// A teardown that did not end inconsistent leaves its original equal to the
/// empty instance, so a later teardown of that original (or of a copy of it)
/// hands nothing out for dropping.
pub proof fn lemma_finished_value_is_spent<T: AsyncDrop>(
    original: T,
    empty: T,
    action: DropFailAction,
    race: Option<Result<(), AsyncDropError>>,
)
    requires
        T::obeys_eq_spec(),
        !(conclusion_of(original.eq_spec(&empty), outcome_of(race), action) matches Err(
            DropFault::Inconsistent,
        )),
    ensures
        original.eq_spec(&empty),
{
}

} // verus!
