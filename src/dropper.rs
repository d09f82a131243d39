//! The wrapper whose value type has a `Default`: teardown swaps a default value
//! into the guard and hands the original out for its asynchronous drop.
use std::time::Duration;
use vstd::prelude::*;

verus! {

/// Owns a value whose drop work is asynchronous, together with the deadline
/// for that work and whether it has already been handed out.
pub struct AsyncDropper<T: Default> {
    dropped: bool,
    timeout: Option<Duration>,
    inner: T,
}

impl<T: Default> AsyncDropper<T> {
    /// Whether the value has been handed out for dropping (or the guard is the
    /// placeholder left behind by that hand-out).
    pub closed spec fn is_dropped(&self) -> bool {
        self.dropped
    }

    /// The deadline for the drop work; `None` waits for as long as it takes.
    pub closed spec fn deadline(&self) -> Option<Duration> {
        self.timeout
    }

    /// The value the guard holds now.
    pub closed spec fn value(&self) -> T {
        self.inner
    }

    /// One teardown trigger: the guard `before` becomes `after` and hands out
    /// `out`. A guard already dropped stays as it is and hands out nothing;
    /// otherwise it hands out its value with its deadline, and what stays
    /// behind is marked dropped and has no deadline.
    pub open spec fn drop_step(before: Self, after: Self, out: Option<(T, Option<Duration>)>) -> bool {
        if before.is_dropped() {
            after == before && out is None
        } else {
            &&& after.is_dropped()
            &&& after.deadline() is None
            &&& out == Some((before.value(), before.deadline()))
        }
    }

    /// Wraps `inner`, with no deadline on its drop work.
    pub fn new(inner: T) -> (r: Self)
        ensures
            !r.is_dropped(),
            r.deadline() is None,
            r.value() == inner,
    {
        AsyncDropper { dropped: false, timeout: None, inner }
    }

    /// Wraps `inner`; its drop work may take at most `timeout`.
    pub fn with_timeout(timeout: Duration, inner: T) -> (r: Self)
        ensures
            !r.is_dropped(),
            r.deadline() == Some(timeout),
            r.value() == inner,
    {
        AsyncDropper { dropped: false, timeout: Some(timeout), inner }
    }

    /// Get a reference to the inner data
    pub fn inner(&self) -> (r: &T)
        ensures
            *r == self.value(),
    {
        &self.inner
    }

    /// Get a mutable reference to inner data
    pub fn inner_mut(&mut self) -> (r: &mut T)
        ensures
            *r == old(self).value(),
            final(self).value() == *final(r),
            final(self).is_dropped() == old(self).is_dropped(),
            final(self).deadline() == old(self).deadline(),
    {
        &mut self.inner
    }

    /// The deadline for the drop work.
    pub fn timeout(&self) -> (r: Option<Duration>)
        ensures
            r == self.deadline(),
    {
        self.timeout
    }

    /// Whether the value has already been handed out for dropping.
    pub fn dropped(&self) -> (r: bool)
        ensures
            r == self.is_dropped(),
    {
        self.dropped
    }

    /// The synchronous half of teardown. The first call hands out the value,
    /// with its deadline, for the caller to drop asynchronously and leaves a
    /// default value in its place; the guard is then marked dropped, so every
    /// later call hands out nothing.
    pub fn take_for_drop(&mut self) -> (r: Option<(T, Option<Duration>)>)
        ensures
            Self::drop_step(*old(self), *final(self), r),
    {
        if self.dropped {
            return None;
        }
        let mut original = T::default();
        std::mem::swap(&mut self.inner, &mut original);
        let timeout = self.timeout;
        self.dropped = true;
        self.timeout = None;
        Some((original, timeout))
    }

    proof fn lemma_stays_dropped(
        states: Seq<Self>,
        outs: Seq<Option<(T, Option<Duration>)>>,
        i: int,
        k: int,
    )
        requires
            states.len() == outs.len() + 1,
            forall|n: int|
                0 <= n < outs.len() ==> Self::drop_step(states[n], states[n + 1], #[trigger] outs[n]),
            0 <= i <= k < states.len(),
            states[i].is_dropped(),
        ensures
            states[k].is_dropped(),
        decreases k - i,
    {
        if k > i {
            Self::lemma_stays_dropped(states, outs, i, k - 1);
            assert(Self::drop_step(states[k - 1], states[k], outs[k - 1]));
        }
    }

    /// However many times teardown is triggered, first on the guard and then
    /// each time on what the previous trigger left behind, at most one trigger
    /// hands a value out for dropping.
    pub proof fn lemma_drop_at_most_once(
        states: Seq<Self>,
        outs: Seq<Option<(T, Option<Duration>)>>,
    )
        requires
            states.len() == outs.len() + 1,
            forall|n: int|
                0 <= n < outs.len() ==> Self::drop_step(states[n], states[n + 1], #[trigger] outs[n]),
        ensures
            forall|i: int, j: int|
                0 <= i < j < outs.len() && (#[trigger] outs[i]) is Some ==> (#[trigger] outs[j]) is None,
    {
        assert forall|i: int, j: int|
            0 <= i < j < outs.len() && (#[trigger] outs[i]) is Some implies (#[trigger] outs[j]) is None by {
            assert(Self::drop_step(states[i], states[i + 1], outs[i]));
            Self::lemma_stays_dropped(states, outs, i + 1, j);
            assert(Self::drop_step(states[j], states[j + 1], outs[j]));
        }
    }
}

} // verus!
