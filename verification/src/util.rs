//! Simulated-time bookkeeping: spans of time as whole nanoseconds, and the
//! `Timer` that counts them against a target.

use std::time::Duration;
use vstd::prelude::*;

verus! {

/// The total number of nanoseconds in a `Duration`, as reported by
/// `Duration::as_nanos`.
pub uninterp spec fn duration_nanos(d: Duration) -> nat;

/// Trusted: calls `Duration::as_nanos`. The contract gives the result its
/// name; nothing else is claimed of the value.
#[verifier::external_body]
pub(crate) fn nanos_of(d: Duration) -> (n: u128)
    ensures
        n == duration_nanos(d),
{
    d.as_nanos()
}

/// Trusted: calls `Duration::from_nanos`, which makes a span of that many
/// nanoseconds.
#[verifier::external_body]
pub(crate) fn span_of(nanos: u64) -> (d: Duration)
    ensures
        duration_nanos(d) == nanos,
{
    Duration::from_nanos(nanos)
}

/// A span of `nanos` nanoseconds rounded to whole seconds, halves rounding up.
pub open spec fn rounded_seconds(nanos: nat) -> nat {
    (nanos + 500_000_000) / 1_000_000_000
}

/// The distance between two points on the time line.
pub open spec fn abs_diff(a: nat, b: nat) -> nat {
    if a >= b {
        (a - b) as nat
    } else {
        (b - a) as nat
    }
}

/// `a + b`, held at `u128::MAX` where the sum would pass it.
pub open spec fn saturating_sum(a: nat, b: nat) -> nat {
    if a + b > u128::MAX {
        u128::MAX as nat
    } else {
        a + b
    }
}

/// Counts elapsed simulated time against a fixed target.
pub struct Timer {
    duration: u128,
    elapsed: u128,
}

impl Timer {
    /// The target, in nanoseconds.
    pub closed spec fn target(&self) -> nat {
        self.duration as nat
    }

    /// The time counted so far, in nanoseconds.
    pub closed spec fn elapsed(&self) -> nat {
        self.elapsed as nat
    }

    /// What `time_left` reports: the distance between target and elapsed
    /// time in whole seconds, also once the target has been passed.
    pub open spec fn seconds_left(&self) -> int {
        let s = rounded_seconds(abs_diff(self.target(), self.elapsed()));
        if s > i32::MAX {
            i32::MAX as int
        } else {
            s as int
        }
    }

    /// The timer's state after `delta` more nanoseconds.
    pub open spec fn after(&self, delta: nat, next: Timer) -> bool {
        &&& next.target() == self.target()
        &&& next.elapsed() == saturating_sum(self.elapsed(), delta)
    }

    /// Both counts fit the counter they are kept in.
    pub proof fn lemma_in_range(&self)
        ensures
            self.target() <= u128::MAX,
            self.elapsed() <= u128::MAX,
    {
    }

    /// A timer that counts up to `duration` and has counted nothing yet.
    pub fn new(duration: Duration) -> (timer: Timer)
        ensures
            timer.target() == duration_nanos(duration),
            timer.elapsed() == 0,
    {
        Timer { duration: nanos_of(duration), elapsed: 0 }
    }

    /// Advances the timer by `delta`. The count stops at the end of the
    /// range of its counter.
    pub fn update(&mut self, delta: Duration)
        ensures
            old(self).after(duration_nanos(delta), *final(self)),
    {
        self.advance(nanos_of(delta));
    }

    /// Advances the timer by `delta` nanoseconds.
    pub fn advance(&mut self, delta: u128)
        ensures
            old(self).after(delta as nat, *final(self)),
    {
        if delta > u128::MAX - self.elapsed {
            self.elapsed = u128::MAX;
        } else {
            self.elapsed = self.elapsed + delta;
        }
    }

    /// The whole seconds between the time counted and the target: the time
    /// that is left before the target is reached, and the time that has
    /// passed since once it is.
    pub fn time_left(&self) -> (seconds: i32)
        ensures
            seconds == self.seconds_left(),
    {
        let diff: u128 = if self.duration >= self.elapsed {
            self.duration - self.elapsed
        } else {
            self.elapsed - self.duration
        };
        let whole: u128 = diff / 1_000_000_000;
        let rest: u128 = diff % 1_000_000_000;
        let rounded: u128 = if rest >= 500_000_000 {
            whole + 1
        } else {
            whole
        };
        if rounded > 2_147_483_647 {
            2_147_483_647
        } else {
            rounded as i32
        }
    }

    /// Whether the time counted has reached the target.
    pub fn is_finished(&self) -> (finished: bool)
        ensures
            finished == (self.elapsed() >= self.target()),
    {
        self.elapsed >= self.duration
    }

    /// The timer's state after a reset: the same target, nothing elapsed.
    pub open spec fn restarted(&self, next: Timer) -> bool {
        &&& next.target() == self.target()
        &&& next.elapsed() == 0
    }

    /// Starts counting again from zero. The target stays.
    pub fn reset(&mut self)
        ensures
            old(self).restarted(*final(self)),
    {
        self.elapsed = 0;
    }

    /// The target, in nanoseconds.
    pub fn target_nanos(&self) -> (nanos: u128)
        ensures
            nanos == self.target(),
    {
        self.duration
    }

    /// The time counted so far, in nanoseconds.
    pub fn elapsed_nanos(&self) -> (nanos: u128)
        ensures
            nanos == self.elapsed(),
    {
        self.elapsed
    }
}

/// The sum of a sequence of time steps.
pub open spec fn total(deltas: Seq<nat>) -> nat
    decreases deltas.len(),
{
    if deltas.len() == 0 {
        0
    } else {
        total(deltas.drop_last()) + deltas.last()
    }
}

/// `states` are the states a timer goes through while it is advanced by
/// each of `deltas` in turn, the first state included.
pub open spec fn is_run(states: Seq<Timer>, deltas: Seq<nat>) -> bool {
    &&& states.len() == deltas.len() + 1
    &&& forall|i: int|
        0 <= i < deltas.len() ==> (#[trigger] states[i]).after(deltas[i], states[i + 1])
}

/// A timer that is advanced by a sequence of steps has counted their sum:
/// its elapsed time grew by the total, its target is the one it had, and it
/// is finished exactly when the time counted reaches the target. The total
/// has to stay within the range of the counter.
pub proof fn lemma_elapsed_is_total(states: Seq<Timer>, deltas: Seq<nat>)
    requires
        is_run(states, deltas),
        states[0].elapsed() + total(deltas) <= u128::MAX,
    ensures
        states.last().elapsed() == states[0].elapsed() + total(deltas),
        states.last().target() == states[0].target(),
        states[0].elapsed() == 0 ==> (states.last().elapsed() >= states.last().target()) == (total(
            deltas,
        ) >= states[0].target()),
    decreases deltas.len(),
{
    if deltas.len() > 0 {
        let n = deltas.len() as int;
        let earlier = states.drop_last();
        let steps = deltas.drop_last();
        assert(is_run(earlier, steps)) by {
            assert forall|i: int| 0 <= i < steps.len() implies (#[trigger] earlier[i]).after(
                steps[i],
                earlier[i + 1],
            ) by {
                assert(states[i].after(deltas[i], states[i + 1]));
            }
        }
        lemma_elapsed_is_total(earlier, steps);
        assert(earlier.last() == states[n - 1]);
        assert(states[n - 1].after(deltas[n - 1], states[n]));
    }
}

/// A timer that is reset and then advanced by nothing reports its whole
/// target as the time left, in rounded seconds.
pub proof fn lemma_reset_shows_target(before: Timer, reset: Timer, after: Timer)
    requires
        before.restarted(reset),
        reset.after(0, after),
    ensures
        after.seconds_left() == if rounded_seconds(before.target()) > i32::MAX {
            i32::MAX as int
        } else {
            rounded_seconds(before.target()) as int
        },
{
}

} // verus!
