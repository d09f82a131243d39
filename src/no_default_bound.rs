//! The wrapper for value types without a `Default`: the value sits in an
//! optional slot, and teardown takes it out of the slot.
use std::time::Duration;
use vstd::prelude::*;

verus! {

/// Owns a value whose drop work is asynchronous, in a slot that teardown
/// empties, together with the deadline for that work and whether it has
/// already been handed out.
pub struct AsyncDropper<T> {
    dropped: bool,
    timeout: Option<Duration>,
    inner: Option<T>,
}

impl<T> AsyncDropper<T> {
    /// Whether the value has been handed out for dropping (or the guard is the
    /// placeholder left behind by that hand-out).
    pub closed spec fn is_dropped(&self) -> bool {
        self.dropped
    }

    /// The deadline for the drop work; `None` waits for as long as it takes.
    pub closed spec fn deadline(&self) -> Option<Duration> {
        self.timeout
    }

    /// The value in the slot, if any.
    pub closed spec fn slot(&self) -> Option<T> {
        self.inner
    }

    /// One teardown trigger: the guard `before` becomes `after` and hands out
    /// `out`. A guard already dropped stays as it is and hands out nothing;
    /// otherwise it hands out the value in its slot, if there is one, with its
    /// deadline, and what stays behind is marked dropped, with an empty slot
    /// and no deadline.
    pub open spec fn drop_step(before: Self, after: Self, out: Option<(T, Option<Duration>)>) -> bool {
        if before.is_dropped() {
            after == before && out is None
        } else {
            &&& after.is_dropped()
            &&& after.deadline() is None
            &&& after.slot() is None
            &&& out == match before.slot() {
                Some(v) => Some((v, before.deadline())),
                None => None,
            }
        }
    }

    /// Create an `AsyncDropper<T>` without a timeout
    pub fn new(inner: T) -> (r: Self)
        ensures
            !r.is_dropped(),
            r.deadline() is None,
            r.slot() == Some(inner),
    {
        AsyncDropper { dropped: false, timeout: None, inner: Some(inner) }
    }

    /// Create an `AsyncDropper<T>` with a given timeout
    pub fn with_timeout(timeout: Duration, inner: T) -> (r: Self)
        ensures
            !r.is_dropped(),
            r.deadline() == Some(timeout),
            r.slot() == Some(inner),
    {
        AsyncDropper { dropped: false, timeout: Some(timeout), inner: Some(inner) }
    }

    /// Get a reference to the inner data
    pub fn inner(&self) -> (r: &T)
        requires
            self.slot() is Some,
        ensures
            Some(*r) == self.slot(),
    {
        match &self.inner {
            Some(v) => v,
            None => vstd::pervasive::unreached(),
        }
    }

    /// Get a mutable reference to inner data
    pub fn inner_mut(&mut self) -> (r: &mut T)
        requires
            old(self).slot() is Some,
        ensures
            Some(*r) == old(self).slot(),
            final(self).slot() == Some(*final(r)),
            final(self).is_dropped() == old(self).is_dropped(),
            final(self).deadline() == old(self).deadline(),
    {
        match &mut self.inner {
            Some(v) => v,
            None => vstd::pervasive::unreached(),
        }
    }

    /// Whether the slot holds a value.
    pub fn has_inner(&self) -> (r: bool)
        ensures
            r == self.slot() is Some,
    {
        self.inner.is_some()
    }

    /// The deadline for the drop work.
    pub fn timeout(&self) -> (r: Option<Duration>)
        ensures
            r == self.deadline(),
    {
        self.timeout
    }

    /// Whether the value has already been handed out for dropping.
    pub fn dropped(&self) -> (r: bool)
        ensures
            r == self.is_dropped(),
    {
        self.dropped
    }

    /// The synchronous half of teardown. The first call takes the value out
    /// of the slot and hands it out, with its deadline, for the caller to drop
    /// asynchronously; the guard is then marked dropped, so every later call
    /// hands out nothing. A guard with an empty slot has nothing to drop.
    pub fn take_for_drop(&mut self) -> (r: Option<(T, Option<Duration>)>)
        ensures
            Self::drop_step(*old(self), *final(self), r),
    {
        if self.dropped {
            return None;
        }
        let timeout = self.timeout;
        self.dropped = true;
        self.timeout = None;
        match self.inner.take() {
            Some(v) => Some((v, timeout)),
            None => None,
        }
    }

    proof fn lemma_stays_dropped(
        states: Seq<Self>,
        outs: Seq<Option<(T, Option<Duration>)>>,
        i: int,
        k: int,
    )
        requires
            states.len() == outs.len() + 1,
            forall|n: int|
                0 <= n < outs.len() ==> Self::drop_step(states[n], states[n + 1], #[trigger] outs[n]),
            0 <= i <= k < states.len(),
            states[i].is_dropped(),
        ensures
            states[k].is_dropped(),
        decreases k - i,
    {
        if k > i {
            Self::lemma_stays_dropped(states, outs, i, k - 1);
            assert(Self::drop_step(states[k - 1], states[k], outs[k - 1]));
        }
    }

    /// However many times teardown is triggered, first on the guard and then
    /// each time on what the previous trigger left behind, at most one trigger
    /// hands a value out for dropping.
    pub proof fn lemma_drop_at_most_once(
        states: Seq<Self>,
        outs: Seq<Option<(T, Option<Duration>)>>,
    )
        requires
            states.len() == outs.len() + 1,
            forall|n: int|
                0 <= n < outs.len() ==> Self::drop_step(states[n], states[n + 1], #[trigger] outs[n]),
        ensures
            forall|i: int, j: int|
                0 <= i < j < outs.len() && (#[trigger] outs[i]) is Some ==> (#[trigger] outs[j]) is None,
    {
        assert forall|i: int, j: int|
            0 <= i < j < outs.len() && (#[trigger] outs[i]) is Some implies (#[trigger] outs[j]) is None by {
            assert(Self::drop_step(states[i], states[i + 1], outs[i]));
            Self::lemma_stays_dropped(states, outs, i + 1, j);
            assert(Self::drop_step(states[j], states[j + 1], outs[j]));
        }
    }}

/// An empty guard: no value, no deadline, not yet dropped. It has nothing to
/// drop; [`AsyncDropper::new`] and [`AsyncDropper::with_timeout`] make guards
/// that hold a value.
impl<T> Default for AsyncDropper<T> {
    fn default() -> (r: Self)
        ensures
            !r.is_dropped(),
            r.deadline() is None,
            r.slot() is None,
    {
        AsyncDropper { dropped: false, timeout: None, inner: None }
    }
}

} // verus!
