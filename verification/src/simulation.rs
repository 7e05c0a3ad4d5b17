//! Observable data of the simulated target and its clock.
//!
//! The clock counts simulated time in fixed-point units. A run is described
//! by its final time and its increment; each request for the next data point
//! reports the time before the increment and then advances the clock.

use vstd::prelude::*;
use crate::fixed::{Fixed, less, lift, sum};

verus! {

/// Length of one full integration step, in raw units: one time unit.
pub const TIME_STEP: i64 = 1_000_000_000;

/// A single data point: everything observable at one instant.
#[derive(Clone, Copy, Debug, PartialEq, Eq)]
pub struct SimData {
    pub time: Fixed,
    pub pn: Fixed,
    pub pe: Fixed,
    pub frequency: Fixed,
    pub c: Fixed,
    pub temperature: Fixed,
    pub dose: Fixed,
}

/// The simulation clock.
#[derive(Clone, Copy, Debug, PartialEq, Eq)]
pub struct Clock {
    pub t: Fixed,
}

/// A run of the clock up to a final time, in increments of `step`.
#[derive(Clone, Copy, Debug, PartialEq, Eq)]
pub struct RunUntil {
    pub t_final: Fixed,
    pub step: Fixed,
}

/// Time left until `t_final`, zero once it is reached.
pub open spec fn remaining(t: int, t_final: int) -> int {
    if t < t_final {
        t_final - t
    } else {
        0
    }
}

/// The times that a run reports when it starts at `t` and advances by `step`
/// until `t_final` is reached or passed.
pub open spec fn reported_times(t: int, t_final: int, step: int) -> Seq<int>
    decreases remaining(t, t_final),
{
    if step > 0 && t < t_final {
        seq![t].add(reported_times(t + step, t_final, step))
    } else {
        Seq::empty()
    }
}

/// Number of increments of `step` needed to reach or pass `t_final` from `t`.
pub open spec fn steps_needed(t: int, t_final: int, step: int) -> int {
    if step > 0 && t < t_final {
        (t_final - t + step - 1) / step
    } else {
        0
    }
}

/// The times that a run reports from a clock at `t`: none where the time or
/// the final time is undefined.
pub open spec fn run_times(t: Option<int>, t_final: Option<int>, step: int) -> Seq<int> {
    match (t, t_final) {
        (Some(t), Some(t_final)) => reported_times(t, t_final, step),
        _ => Seq::empty(),
    }
}

/// Time left on a clock that may be undefined.
pub open spec fn time_left(t: Option<int>, t_final: Option<int>) -> int {
    match (t, t_final) {
        (Some(t), Some(t_final)) => remaining(t, t_final),
        _ => 0,
    }
}

impl Clock {
    /// A clock at time zero.
    pub fn new() -> (c: Clock)
        ensures
            c.t@ == Some(0int),
    {
        Clock { t: Fixed::from_raw(0) }
    }

    pub fn now(&self) -> (t: Fixed)
        ensures
            t == self.t,
    {
        self.t
    }

    /// Advances the clock by `step`.
    pub fn tick(&mut self, step: Fixed)
        ensures
            final(self).t@ == sum(old(self).t@, step@),
    {
        self.t = self.t.plus(step);
    }

    /// A run up to `t_final` in full steps.
    pub fn run_until(&self, t_final: Fixed) -> (run: RunUntil)
        ensures
            run.t_final == t_final,
            run.step@ == Some(TIME_STEP as int),
    {
        RunUntil { t_final, step: Fixed::from_raw(TIME_STEP) }
    }

    /// A run over the next `time` units in full steps.
    pub fn run_for(&self, time: Fixed) -> (run: RunUntil)
        ensures
            run.t_final@ == sum(self.t@, time@),
            run.step@ == Some(TIME_STEP as int),
    {
        RunUntil { t_final: self.t.plus(time), step: Fixed::from_raw(TIME_STEP) }
    }

    /// A run over the next `time` units in increments of `step`.
    pub fn run_for_with_step(&self, time: Fixed, step: Fixed) -> (run: RunUntil)
        ensures
            run.t_final@ == sum(self.t@, time@),
            run.step == step,
    {
        RunUntil { t_final: self.t.plus(time), step }
    }
}

impl RunUntil {
    /// Whether the run has a further data point at the clock's time.
    pub open spec fn pending(&self, clock: Clock) -> bool {
        less(clock.t@, self.t_final@)
    }

    /// The next data point's time, if the clock has not reached the final
    /// time; the clock then advances by one increment. A finished run leaves
    /// the clock as it is.
    pub fn next(&self, clock: &mut Clock) -> (r: Option<Fixed>)
        ensures
            self.pending(*old(clock)) ==> r == Some(old(clock).t) && final(clock).t@ == sum(
                old(clock).t@,
                self.step@,
            ),
            !self.pending(*old(clock)) ==> r.is_none() && *final(clock) == *old(clock),
    {
        if clock.t.lt(self.t_final) {
            let t: Fixed = clock.t;
            clock.tick(self.step);
            Some(t)
        } else {
            None
        }
    }

    /// Runs to the end: the times of all data points in order. The clock
    /// ends at the first time at or after the final time, or undefined where
    /// that time cannot be represented. The increment must be positive, or
    /// the run would have no end.
    pub fn drain(&self, clock: &mut Clock) -> (times: Vec<Fixed>)
        requires
            self.step@.is_some(),
            self.step@.unwrap() > 0,
        ensures
            times@.len() == run_times(old(clock).t@, self.t_final@, self.step@.unwrap()).len(),
            forall|i: int|
                0 <= i < times@.len() ==> (#[trigger] times@[i])@ == Some(
                    run_times(old(clock).t@, self.t_final@, self.step@.unwrap())[i],
                ),
            times@.len() == 0 ==> *final(clock) == *old(clock),
            times@.len() > 0 ==> final(clock).t@ == lift(
                old(clock).t@.unwrap() + times@.len() * self.step@.unwrap(),
            ),
    {
        let ghost t0 = clock.t@;
        let ghost t_final = self.t_final@;
        let ghost step = self.step@.unwrap();
        let mut times: Vec<Fixed> = Vec::new();
        loop
            invariant
                self.step@ == Some(step),
                self.t_final@ == t_final,
                step > 0,
                times@.len() == 0 ==> *clock == *old(clock),
                times@.len() > 0 ==> t0.is_some() && t_final.is_some() && clock.t@ == lift(
                    t0.unwrap() + times@.len() * step,
                ) && t0.unwrap() + (times@.len() - 1) * step < t_final.unwrap(),
                t0 == old(clock).t@,
                forall|i: int|
                    0 <= i < times@.len() ==> (#[trigger] times@[i])@ == Some(
                        t0.unwrap() + i * step,
                    ),
            ensures
                !self.pending(*clock),
            decreases time_left(clock.t@, t_final),
        {
            let ghost n = times@.len() as int;
            match self.next(clock) {
                Some(t) => {
                    proof {
                        assert((n + 1) * step == n * step + step) by (nonlinear_arith);
                        assert((n + 1 - 1) * step == n * step) by (nonlinear_arith);
                        assert(0 * step == 0);
                    }
                    times.push(t);
                },
                None => {
                    break ;
                },
            }
        }
        proof {
            let n = times@.len() as int;
            if t0.is_some() && t_final.is_some() {
                if n > 0 {
                    assert((n - 1) * step + step == n * step) by (nonlinear_arith);
                }
                lemma_run_length(t0.unwrap(), t_final.unwrap(), step, n);
                lemma_reported_times(t0.unwrap(), t_final.unwrap(), step);
            }
        }
        times
    }
}

/// A run that is still short of the final time after `n - 1` increments and
/// has reached it after `n` has exactly `n` data points.
pub proof fn lemma_run_length(t: int, t_final: int, step: int, n: int)
    requires
        step > 0,
        n >= 0,
        n > 0 ==> t + (n - 1) * step < t_final,
        t + n * step >= t_final,
    ensures
        reported_times(t, t_final, step).len() == n,
    decreases n,
{
    if n == 0 {
        assert(0 * step == 0);
    } else {
        assert(t < t_final) by (nonlinear_arith)
            requires
                t + (n - 1) * step < t_final,
                n >= 1,
                step > 0,
        ;
        assert((t + step) + (n - 1) * step == t + n * step) by (nonlinear_arith);
        if n > 1 {
            assert((t + step) + (n - 2) * step == t + (n - 1) * step) by (nonlinear_arith);
        }
        lemma_run_length(t + step, t_final, step, n - 1);
    }
}

/// A run with a positive increment reports, as its data point number `i`, the
/// starting time plus `i` increments; every reported time is at or after the
/// start and before the final time, and the run has exactly as many data
/// points as increments are needed to reach the final time.
pub proof fn lemma_reported_times(t: int, t_final: int, step: int)
    requires
        step > 0,
    ensures
        reported_times(t, t_final, step).len() == steps_needed(t, t_final, step),
        forall|i: int|
            0 <= i < reported_times(t, t_final, step).len() ==> {
                &&& #[trigger] reported_times(t, t_final, step)[i] == t + i * step
                &&& t <= reported_times(t, t_final, step)[i] < t_final
            },
    decreases remaining(t, t_final),
{
    if t < t_final {
        let rest = reported_times(t + step, t_final, step);
        lemma_reported_times(t + step, t_final, step);
        assert(steps_needed(t, t_final, step) == steps_needed(t + step, t_final, step) + 1) by {
            if t + step < t_final {
                assert((t_final - t + step - 1) / step == (t_final - (t + step) + step - 1) / step
                    + 1) by (nonlinear_arith)
                    requires
                        step > 0,
                ;
            } else {
                assert((t_final - t + step - 1) / step == 1) by (nonlinear_arith)
                    requires
                        step > 0,
                        0 < t_final - t <= step,
                ;
            }
        }
        assert forall|i: int| 0 <= i < reported_times(t, t_final, step).len() implies {
            &&& #[trigger] reported_times(t, t_final, step)[i] == t + i * step
            &&& t <= reported_times(t, t_final, step)[i] < t_final
        } by {
            if i > 0 {
                assert(reported_times(t, t_final, step)[i] == rest[i - 1]);
                assert((t + step) + (i - 1) * step == t + i * step) by (nonlinear_arith);
            } else {
                assert(i * step == 0);
            }
        }
    }
}

/// Consecutive data points of a run are exactly one increment apart, so their
/// times increase strictly.
pub proof fn lemma_reported_times_spacing(t: int, t_final: int, step: int, i: int)
    requires
        step > 0,
        0 <= i,
        i + 1 < reported_times(t, t_final, step).len(),
    ensures
        reported_times(t, t_final, step)[i + 1] == reported_times(t, t_final, step)[i] + step,
        reported_times(t, t_final, step)[i] < reported_times(t, t_final, step)[i + 1],
{
    lemma_reported_times(t, t_final, step);
    assert((i + 1) * step == i * step + step) by (nonlinear_arith);
}

} // verus!
