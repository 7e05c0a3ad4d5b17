//! The sweep-averaging sampling layer.
//!
//! The instrument reads the polarization in short sweeps, each with its own
//! measurement error, and reports the mean of a fixed number of them. The
//! caller runs the sweeps: for each it advances the simulation by
//! `SWEEP_TIME` in increments of `SWEEP_STEP` and reads the polarization with
//! the sweep's error added. `take_data` turns the readings of one sample
//! into its data point.

use vstd::prelude::*;
use crate::fixed::{Fixed, less, quotient, sum, SCALE};
use crate::simulation::SimData;

verus! {

/// Duration of one sweep: 64 ms.
pub const SWEEP_TIME: i64 = 64_000_000;

/// Increment by which the simulation advances during a sweep: 1 ms.
pub const SWEEP_STEP: i64 = 1_000_000;

/// Width of the band of a sweep's error in polarization: 0.04, so that the
/// error lies within 0.02 of zero.
pub const SWEEP_UNCERTAINTY: i64 = 40_000_000;

/// The sum of the readings, added up from the first to the last.
pub open spec fn total(readings: Seq<Fixed>) -> Option<int>
    decreases readings.len(),
{
    if readings.len() == 0 {
        Some(0int)
    } else {
        sum(total(readings.drop_last()), readings.last()@)
    }
}

/// The sum of the readings divided by the number of sweeps; undefined when
/// that number is zero.
pub open spec fn averaged(readings: Seq<Fixed>, n_sweeps: int) -> Option<int> {
    quotient(total(readings), Some(n_sweeps * SCALE))
}

/// The state of the sampling layer.
#[derive(Clone, Copy, Debug, PartialEq, Eq)]
pub struct Pdp {
    /// The number of sweeps per data reading.
    pub n_sweeps: u32,
}

/// A run of samples up to a final time.
#[derive(Clone, Copy, Debug, PartialEq, Eq)]
pub struct RunUntil {
    pub t_final: Fixed,
}

impl Pdp {
    /// A sampling layer that averages over `n_sweeps` sweeps.
    pub fn new(n_sweeps: u32) -> (pdp: Pdp)
        ensures
            pdp.n_sweeps == n_sweeps,
    {
        Pdp { n_sweeps }
    }

    /// The data point of one sample: `data`, the simulation's data point
    /// after the last sweep, with the mean of the sweeps' readings for its
    /// polarization. `readings` holds one reading for each sweep. With no
    /// sweep at all the polarization is undefined.
    pub fn take_data(&self, readings: &Vec<Fixed>, data: SimData) -> (r: SimData)
        requires
            readings@.len() == self.n_sweeps,
        ensures
            r.pn@ == averaged(readings@, self.n_sweeps as int),
            r == (SimData { pn: r.pn, ..data }),
    {
        let mut pn: Fixed = Fixed::from_raw(0);
        let mut i: usize = 0;
        while i < readings.len()
            invariant
                i <= readings.len(),
                pn@ == total(readings@.take(i as int)),
            decreases readings.len() - i,
        {
            assert(readings@.take(i + 1).drop_last() == readings@.take(i as int));
            pn = pn.plus(readings[i]);
            i += 1;
        }
        assert(readings@.take(i as int) == readings@);
        let count: Fixed = Fixed::from_raw(self.n_sweeps as i64 * SCALE);
        SimData { pn: pn.over(count), ..data }
    }

    /// A run of samples up to `t_final`.
    pub fn run_until_iter(&self, t_final: Fixed) -> (run: RunUntil)
        ensures
            run.t_final == t_final,
    {
        RunUntil { t_final }
    }

    /// A run of samples over the next `time` units after the data point `now`.
    pub fn run_for_iter(&self, now: &SimData, time: Fixed) -> (run: RunUntil)
        ensures
            run.t_final@ == sum(now.time@, time@),
    {
        RunUntil { t_final: now.time.plus(time) }
    }
}

impl RunUntil {
    /// Whether the run takes a further sample at the data point `now`: as
    /// long as its time lies before the final time.
    pub fn pending(&self, now: &SimData) -> (b: bool)
        ensures
            b == less(now.time@, self.t_final@),
    {
        now.time.lt(self.t_final)
    }
}

} // verus!
