//! Frequency-search controllers.
//!
//! A controller decides, from three data points taken one sampling interval
//! apart, where to move the microwave frequency next. The caller runs the
//! simulation: it takes a data point, advances by `SAMPLE_INTERVAL`, takes
//! the second, advances again, takes the third, hands the three to
//! `control_step`, applies the frequency of the returned step and lets the
//! system settle for the time that the step names.

use vstd::prelude::*;
use std::marker::PhantomData;
use crate::fixed::{Fixed, difference, less, product, quotient, sum, trunc_div, SCALE};
use crate::simulation::SimData;

verus! {

/// Step size of a fresh controller: 0.03.
pub const INITIAL_STEP: i64 = 30_000_000;

/// Smallest step size: 0.001.
pub const MIN_STEP: i64 = 1_000_000;

/// Factor by which the step size shrinks when the direction reverses: 0.8.
pub const SHRINK: i64 = 800_000_000;

/// Time between two of the three data points of a step: 1.0.
pub const SAMPLE_INTERVAL: i64 = 1_000_000_000;

/// Time to let the system settle after a frequency change: 5.0.
pub const SETTLE_TIME: i64 = 5_000_000_000;

/// The whole number `n` as a fixed-point value.
pub open spec fn whole(n: int) -> Option<int> {
    Some(n * SCALE)
}

/// Slope between the midpoints of the two consecutive pairs of data points.
pub open spec fn midpoint_slope(d1: SimData, d2: SimData, d3: SimData) -> Option<int> {
    let p1 = quotient(sum(d2.pn@, d1.pn@), whole(2));
    let p2 = quotient(sum(d3.pn@, d2.pn@), whole(2));
    let e1 = quotient(sum(d2.time@, d1.time@), whole(2));
    let e2 = quotient(sum(d3.time@, d2.time@), whole(2));
    quotient(difference(p2, p1), difference(e2, e1))
}

/// Mean of the two slopes between consecutive data points.
pub open spec fn two_slope_average(d1: SimData, d2: SimData, d3: SimData) -> Option<int> {
    let r1 = quotient(difference(d2.pn@, d1.pn@), difference(d2.time@, d1.time@));
    let r2 = quotient(difference(d3.pn@, d2.pn@), difference(d3.time@, d2.time@));
    quotient(sum(r1, r2), whole(2))
}

/// The offsets of the outer data points from the middle one: of the first
/// in time and polarization, then of the third. The parabola through the
/// three data points is taken in these coordinates, so that it does not
/// depend on where in time the data points lie.
pub open spec fn offsets(d1: SimData, d2: SimData, d3: SimData) -> (
    Option<int>,
    Option<int>,
    Option<int>,
    Option<int>,
) {
    (
        difference(d1.time@, d2.time@),
        difference(d1.pn@, d2.pn@),
        difference(d3.time@, d2.time@),
        difference(d3.pn@, d2.pn@),
    )
}

/// Numerator of the leading coefficient of the parabola through the three
/// data points. Both products are the same number when the points lie on a
/// line, so that the curvature is then exactly zero.
pub open spec fn curvature(d1: SimData, d2: SimData, d3: SimData) -> Option<int> {
    let (u1, v1, u3, v3) = offsets(d1, d2, d3);
    difference(product(v1, u3), product(v3, u1))
}

/// Common denominator of the parabola's coefficients: the product of the
/// three differences of the times. Zero when two times are equal.
pub open spec fn spread(d1: SimData, d2: SimData, d3: SimData) -> Option<int> {
    let (u1, v1, u3, v3) = offsets(d1, d2, d3);
    product(product(u1, u3), difference(u1, u3))
}

/// Slope of the parabola at the middle data point.
pub open spec fn first_derivative(d1: SimData, d2: SimData, d3: SimData) -> Option<int> {
    let (u1, v1, u3, v3) = offsets(d1, d2, d3);
    quotient(
        difference(product(v3, product(u1, u1)), product(v1, product(u3, u3))),
        spread(d1, d2, d3),
    )
}

/// Second derivative of the parabola: twice its leading coefficient.
pub open spec fn second_derivative(d1: SimData, d2: SimData, d3: SimData) -> Option<int> {
    quotient(product(whole(2), curvature(d1, d2, d3)), spread(d1, d2, d3))
}

/// Polarization that an exponential relaxation with the parabola's first and
/// second derivative at the middle data point would settle at. Undefined
/// where the second derivative is zero.
pub open spec fn steady_state(d1: SimData, d2: SimData, d3: SimData) -> Option<int> {
    let first = first_derivative(d1, d2, d3);
    difference(d2.pn@, quotient(product(first, first), second_derivative(d1, d2, d3)))
}

/// The step size after one reversal: shrunk, but never below `MIN_STEP`.
pub open spec fn shrunk(step: int) -> int {
    let s = trunc_div(step * SHRINK, SCALE as int);
    if s < MIN_STEP {
        MIN_STEP as int
    } else {
        s
    }
}

/// The frequency one step away from `frequency`, upward or downward.
pub open spec fn moved(frequency: Option<int>, up: bool, step: int) -> Option<int> {
    if up {
        sum(frequency, Some(step))
    } else {
        difference(frequency, Some(step))
    }
}

/// A data point with the rate that the controller computed for it.
#[derive(Clone, Copy, Debug, PartialEq, Eq)]
pub struct ControllerData {
    pub sim_data: SimData,
    pub rate: Fixed,
}

/// What a control step decided: the record of the step, the frequency to set
/// and the time to let the system settle at that frequency.
#[derive(Clone, Copy, Debug, PartialEq, Eq)]
pub struct Step {
    pub data: ControllerData,
    pub frequency: Fixed,
    pub settle: Fixed,
}

/// A way to compute a rate from three data points in time order.
pub trait ThreePointControllerFn {
    spec fn rate(d1: SimData, d2: SimData, d3: SimData) -> Option<int>;

    /// Calculate the rate from three data points.
    fn calc_rate(d1: &SimData, d2: &SimData, d3: &SimData) -> (r: Fixed)
        ensures
            r@ == Self::rate(*d1, *d2, *d3),
    ;
}

/// The standard rate: the midpoint slope.
pub struct StdControllerFn;

/// A variant of the standard rate: the mean of the two slopes.
pub struct StdControllerFn2;

/// Not a rate but the projected steady-state polarization; it is compared in
/// the same way.
pub struct KValControllerFn;

impl ThreePointControllerFn for StdControllerFn {
    open spec fn rate(d1: SimData, d2: SimData, d3: SimData) -> Option<int> {
        midpoint_slope(d1, d2, d3)
    }

    fn calc_rate(d1: &SimData, d2: &SimData, d3: &SimData) -> (r: Fixed) {
        let two: Fixed = Fixed::from_raw(2_000_000_000);
        let p1: Fixed = d2.pn.plus(d1.pn).over(two);
        let p2: Fixed = d3.pn.plus(d2.pn).over(two);
        let e1: Fixed = d2.time.plus(d1.time).over(two);
        let e2: Fixed = d3.time.plus(d2.time).over(two);
        p2.minus(p1).over(e2.minus(e1))
    }
}

impl ThreePointControllerFn for StdControllerFn2 {
    open spec fn rate(d1: SimData, d2: SimData, d3: SimData) -> Option<int> {
        two_slope_average(d1, d2, d3)
    }

    fn calc_rate(d1: &SimData, d2: &SimData, d3: &SimData) -> (r: Fixed) {
        let two: Fixed = Fixed::from_raw(2_000_000_000);
        let r1: Fixed = d2.pn.minus(d1.pn).over(d2.time.minus(d1.time));
        let r2: Fixed = d3.pn.minus(d2.pn).over(d3.time.minus(d2.time));
        r1.plus(r2).over(two)
    }
}

impl ThreePointControllerFn for KValControllerFn {
    open spec fn rate(d1: SimData, d2: SimData, d3: SimData) -> Option<int> {
        steady_state(d1, d2, d3)
    }

    fn calc_rate(d1: &SimData, d2: &SimData, d3: &SimData) -> (r: Fixed) {
        let two: Fixed = Fixed::from_raw(2_000_000_000);
        let u1: Fixed = d1.time.minus(d2.time);
        let v1: Fixed = d1.pn.minus(d2.pn);
        let u3: Fixed = d3.time.minus(d2.time);
        let v3: Fixed = d3.pn.minus(d2.pn);

        let curvature: Fixed = v1.times(u3).minus(v3.times(u1));
        let spread: Fixed = u1.times(u3).times(u1.minus(u3));

        let first_deriv: Fixed = v3.times(u1.times(u1)).minus(v1.times(u3.times(u3))).over(spread);
        let second_deriv: Fixed = two.times(curvature).over(spread);

        d2.pn.minus(first_deriv.times(first_deriv).over(second_deriv))
    }
}

/// Whether the three data points are defined and lie on a line: the rise
/// over the first interval is to its length as the rise over the second is
/// to its length.
pub open spec fn collinear(d1: SimData, d2: SimData, d3: SimData) -> bool {
    match (d1.time@, d1.pn@, d2.time@, d2.pn@, d3.time@, d3.pn@) {
        (Some(x1), Some(y1), Some(x2), Some(y2), Some(x3), Some(y3)) => (y2 - y1) * (x3 - x2) == (
        y3 - y2) * (x2 - x1),
        _ => false,
    }
}

/// Three data points on a line have no steady state: the result is
/// undefined, whatever their times. Their curvature is exactly zero unless
/// it is undefined, and where the times are far enough apart to give a
/// spread other than zero, the second derivative is exactly zero.
pub proof fn lemma_steady_state_of_collinear(d1: SimData, d2: SimData, d3: SimData)
    requires
        collinear(d1, d2, d3),
    ensures
        steady_state(d1, d2, d3).is_none(),
        curvature(d1, d2, d3) == Some(0int) || curvature(d1, d2, d3).is_none(),
        curvature(d1, d2, d3) == Some(0int) && spread(d1, d2, d3).is_some() && spread(d1, d2, d3)
            != Some(0int) ==> second_derivative(d1, d2, d3) == Some(0int),
{
    let (u1, v1, u3, v3) = offsets(d1, d2, d3);
    if u1.is_some() && v1.is_some() && u3.is_some() && v3.is_some() {
        let x1 = d1.time@.unwrap();
        let y1 = d1.pn@.unwrap();
        let x2 = d2.time@.unwrap();
        let y2 = d2.pn@.unwrap();
        let x3 = d3.time@.unwrap();
        let y3 = d3.pn@.unwrap();
        assert((y1 - y2) * (x3 - x2) == (y3 - y2) * (x1 - x2)) by (nonlinear_arith)
            requires
                (y2 - y1) * (x3 - x2) == (y3 - y2) * (x2 - x1),
        ;
        assert(product(v1, u3) == product(v3, u1));
        let spread = spread(d1, d2, d3);
        if curvature(d1, d2, d3) == Some(0int) && spread.is_some() && spread != Some(0int) {
            assert(2 * SCALE * 0int == 0);
            assert(trunc_div(0, SCALE as int) == 0);
            assert(product(whole(2), Some(0int)) == Some(0int));
            assert(0int * SCALE == 0);
            assert(trunc_div(0, spread.unwrap()) == 0);
            assert(second_derivative(d1, d2, d3) == Some(0int));
        }
    }
}

/// The steady state does not depend on where in time the data points lie:
/// three data points moved in time by the same amount have the same
/// derivatives and the same steady state.
pub proof fn lemma_steady_state_shift(
    d1: SimData,
    d2: SimData,
    d3: SimData,
    e1: SimData,
    e2: SimData,
    e3: SimData,
    shift: int,
)
    requires
        d1.time@.is_some() && e1.time@ == Some(d1.time@.unwrap() + shift),
        d2.time@.is_some() && e2.time@ == Some(d2.time@.unwrap() + shift),
        d3.time@.is_some() && e3.time@ == Some(d3.time@.unwrap() + shift),
        e1.pn == d1.pn,
        e2.pn == d2.pn,
        e3.pn == d3.pn,
    ensures
        first_derivative(e1, e2, e3) == first_derivative(d1, d2, d3),
        second_derivative(e1, e2, e3) == second_derivative(d1, d2, d3),
        steady_state(e1, e2, e3) == steady_state(d1, d2, d3),
{
    assert(offsets(e1, e2, e3) == offsets(d1, d2, d3));
}

/// For data points one time unit apart the slope at the middle is half the
/// rise from the first to the third, the second derivative is the second
/// difference of the polarizations, and the steady state follows from these
/// two.
pub proof fn lemma_steady_state_unit_spacing(d1: SimData, d2: SimData, d3: SimData)
    requires
        d1.time@.is_some() && d2.time@ == Some(d1.time@.unwrap() + SCALE),
        d3.time@ == Some(d2.time@.unwrap() + SCALE),
        d1.pn@.is_some() && -0x0800_0000_0000_0000 <= d1.pn@.unwrap() <= 0x0800_0000_0000_0000,
        d2.pn@.is_some() && -0x0800_0000_0000_0000 <= d2.pn@.unwrap() <= 0x0800_0000_0000_0000,
        d3.pn@.is_some() && -0x0800_0000_0000_0000 <= d3.pn@.unwrap() <= 0x0800_0000_0000_0000,
    ensures
        first_derivative(d1, d2, d3) == Some(
            trunc_div(d3.pn@.unwrap() - d1.pn@.unwrap(), 2),
        ),
        second_derivative(d1, d2, d3) == Some(
            d1.pn@.unwrap() - 2 * d2.pn@.unwrap() + d3.pn@.unwrap(),
        ),
        steady_state(d1, d2, d3) == difference(
            d2.pn@,
            quotient(
                product(
                    Some(trunc_div(d3.pn@.unwrap() - d1.pn@.unwrap(), 2)),
                    Some(trunc_div(d3.pn@.unwrap() - d1.pn@.unwrap(), 2)),
                ),
                Some(d1.pn@.unwrap() - 2 * d2.pn@.unwrap() + d3.pn@.unwrap()),
            ),
        ),
{
    let (u1, v1, u3, v3) = offsets(d1, d2, d3);
    let s = SCALE as int;
    let a = v1.unwrap();
    let b = v3.unwrap();
    assert(u1 == Some(-s) && u3 == Some(s));
    assert(a * s == a * 1_000_000_000 && b * s == b * 1_000_000_000);
    assert(b * (-s) == -(b * 1_000_000_000)) by (nonlinear_arith)
        requires
            s == 1_000_000_000,
    ;
    assert((-s) * s == -1_000_000_000_000_000_000 && (-s) * (-s) == 1_000_000_000_000_000_000
        && s * s == 1_000_000_000_000_000_000 && (-s) * (-2 * s)
        == 2_000_000_000_000_000_000) by (nonlinear_arith)
        requires
            s == 1_000_000_000,
    ;
    assert(2 * s * (a + b) == (a + b) * 2_000_000_000) by (nonlinear_arith)
        requires
            s == 1_000_000_000,
    ;
    assert(product(v1, u3) == Some(a));
    assert(product(v3, u1) == Some(-b));
    assert(curvature(d1, d2, d3) == Some(a + b));
    assert(product(u1, u3) == Some(-s));
    assert(difference(u1, u3) == Some(-2 * s));
    assert(spread(d1, d2, d3) == Some(2 * s));
    assert(product(u1, u1) == Some(s));
    assert(product(u3, u3) == Some(s));
    assert(product(v3, Some(s)) == Some(b));
    assert(product(v1, Some(s)) == Some(a));
    assert(product(whole(2), Some(a + b)) == Some(2 * (a + b)));
    assert((b - a) * s == (b - a) * 1_000_000_000);
    assert(2 * (a + b) * s == (a + b) * 2_000_000_000);
}

/// A frequency-search controller.
pub trait Controller: Sized {
    /// The rate of the latest step; undefined where that step's rate was.
    spec fn last_rate(&self) -> Option<int>;

    /// Whether the next move goes up in frequency.
    spec fn moving_up(&self) -> bool;

    /// Size of the next move, in raw units.
    spec fn step_size(&self) -> int;

    /// Whether a step on the three data points may take this controller to
    /// `after`: what the kind of controller adds to the rules that hold of
    /// every step.
    spec fn steps_to(&self, d1: SimData, d2: SimData, d3: SimData, after: Self) -> bool;

    /// A fresh controller: rate zero, moving up, with the initial step size.
    fn new() -> (c: Self)
        ensures
            c.last_rate() == Some(0int),
            c.moving_up(),
            c.step_size() == INITIAL_STEP,
    ;

    /// The size of the next move. It is never below `MIN_STEP`, whatever
    /// steps the controller has made.
    fn current_step_size(&self) -> (s: Fixed)
        ensures
            s@ == Some(self.step_size()),
            MIN_STEP <= self.step_size() <= INITIAL_STEP,
    ;

    /// Whether the next move goes up in frequency.
    fn direction(&self) -> (up: bool)
        ensures
            up == self.moving_up(),
    ;

    /// The controller data for the data point `sim_data`: the data point with
    /// the latest rate. The controller is left as it is.
    fn take_data(&self, sim_data: SimData) -> (r: ControllerData)
        ensures
            r.sim_data == sim_data,
            r.rate@ == self.last_rate(),
    ;

    /// Makes a single step in the algorithm, on three data points in time
    /// order. The controller either keeps its direction and step size, or
    /// reverses and shrinks the step; the step size never drops below
    /// `MIN_STEP`. The returned frequency lies one step from that of `d3`.
    fn control_step(&mut self, d1: &SimData, d2: &SimData, d3: &SimData) -> (r: Step)
        ensures
            old(self).steps_to(*d1, *d2, *d3, *final(self)),
            MIN_STEP <= final(self).step_size() <= old(self).step_size() <= INITIAL_STEP,
            final(self).moving_up() == old(self).moving_up() ==> final(self).step_size() == old(
                self,
            ).step_size(),
            final(self).moving_up() != old(self).moving_up() ==> final(self).step_size() == shrunk(
                old(self).step_size(),
            ),
            r.data.sim_data == *d3,
            r.data.rate@ == final(self).last_rate(),
            r.frequency@ == moved(d3.frequency@, final(self).moving_up(), final(self).step_size()),
            r.settle@ == Some(SETTLE_TIME as int),
    ;

    /// A run of control steps up to the time `t_final`.
    fn control_until(&self, t_final: Fixed) -> (run: ControlUntil)
        ensures
            run.t_final == t_final,
    {
        ControlUntil { t_final }
    }
}

/// A run of control steps up to a final time.
#[derive(Clone, Copy, Debug, PartialEq, Eq)]
pub struct ControlUntil {
    pub t_final: Fixed,
}

impl ControlUntil {
    /// A run is over once the time of the current data point exceeds the
    /// final time. A data point exactly at the final time still gets a step.
    pub open spec fn finished(&self, now: SimData) -> bool {
        less(self.t_final@, now.time@)
    }

    pub fn is_finished(&self, now: &SimData) -> (b: bool)
        ensures
            b == self.finished(*now),
    {
        self.t_final.lt(now.time)
    }

    /// The next control step of the run, where `d1` is the current data
    /// point: none, and the controller untouched, when the run is over.
    pub fn next<C: Controller>(
        &self,
        controller: &mut C,
        d1: &SimData,
        d2: &SimData,
        d3: &SimData,
    ) -> (r: Option<Step>)
        ensures
            self.finished(*d1) ==> r.is_none() && *final(controller) == *old(controller),
            !self.finished(*d1) ==> {
                &&& r.is_some()
                &&& old(controller).steps_to(*d1, *d2, *d3, *final(controller))
                &&& r.unwrap().data.sim_data == *d3
                &&& r.unwrap().data.rate@ == final(controller).last_rate()
                &&& r.unwrap().frequency@ == moved(
                    d3.frequency@,
                    final(controller).moving_up(),
                    final(controller).step_size(),
                )
                &&& r.unwrap().settle@ == Some(SETTLE_TIME as int)
            },
            MIN_STEP <= final(controller).step_size() <= old(controller).step_size(),
    {
        if self.is_finished(d1) {
            // The floor on the step size holds of every controller.
            let _step: Fixed = controller.current_step_size();
            None
        } else {
            Some(controller.control_step(d1, d2, d3))
        }
    }
}

/// The direction and step size after a step whose rate is `rate`, following
/// one whose rate was `last_rate`: a drop of the rate reverses the direction
/// and shrinks the step. Where either rate is undefined nothing has dropped,
/// and both are kept.
pub open spec fn climbed(up: bool, step: int, rate: Option<int>, last_rate: Option<int>) -> (
    bool,
    int,
) {
    if less(rate, last_rate) {
        (!up, shrunk(step))
    } else {
        (up, step)
    }
}

/// A hill-climbing controller that goes by a rate calculated from three data
/// points (the rate need not be a slope; it is compared in the same way).
pub struct ThreePointController<T: ThreePointControllerFn> {
    last_rate: Fixed,
    direction: bool,
    step_size: i64,
    wat: PhantomData<T>,
}

/// A controller that reverses at random (the control group).
pub struct RandController {
    direction: bool,
    step_size: i64,
}

/// The shrunk step size.
fn shrink(step: i64) -> (s: i64)
    requires
        MIN_STEP <= step <= INITIAL_STEP,
    ensures
        s == shrunk(step as int),
        MIN_STEP <= s <= step,
{
    let s: i64 = step * SHRINK / SCALE;
    if s < MIN_STEP {
        MIN_STEP
    } else {
        s
    }
}

/// The raw value of the frequency to set.
fn move_from(frequency: Fixed, up: bool, step: i64) -> (f: Fixed)
    ensures
        f@ == moved(frequency@, up, step as int),
{
    if up {
        frequency.plus(Fixed::from_raw(step))
    } else {
        frequency.minus(Fixed::from_raw(step))
    }
}

impl<T: ThreePointControllerFn> ThreePointController<T> {
    #[verifier::type_invariant]
    spec fn step_in_range(self) -> bool {
        MIN_STEP <= self.step_size <= INITIAL_STEP
    }

}

impl<T: ThreePointControllerFn> Controller for ThreePointController<T> {
    closed spec fn last_rate(&self) -> Option<int> {
        self.last_rate@
    }

    closed spec fn moving_up(&self) -> bool {
        self.direction
    }

    closed spec fn step_size(&self) -> int {
        self.step_size as int
    }

    /// The step goes by the rate of the three data points, undefined or
    /// not; a drop of the rate reverses the direction and shrinks the step.
    open spec fn steps_to(&self, d1: SimData, d2: SimData, d3: SimData, after: Self) -> bool {
        &&& after.last_rate() == T::rate(d1, d2, d3)
        &&& (after.moving_up(), after.step_size()) == climbed(
            self.moving_up(),
            self.step_size(),
            after.last_rate(),
            self.last_rate(),
        )
    }

    fn new() -> (c: Self) {
        ThreePointController {
            last_rate: Fixed::from_raw(0),
            direction: true,
            step_size: INITIAL_STEP,
            wat: PhantomData,
        }
    }

    fn current_step_size(&self) -> (s: Fixed) {
        proof {
            use_type_invariant(self);
        }
        Fixed::from_raw(self.step_size)
    }

    fn direction(&self) -> (up: bool) {
        self.direction
    }

    fn take_data(&self, sim_data: SimData) -> (r: ControllerData) {
        ControllerData { sim_data, rate: self.last_rate }
    }

    fn control_step(&mut self, d1: &SimData, d2: &SimData, d3: &SimData) -> (r: Step) {
        proof {
            use_type_invariant(&*self);
        }
        let rate: Fixed = T::calc_rate(d1, d2, d3);
        if rate.lt(self.last_rate) {
            self.direction = !self.direction;
            self.step_size = shrink(self.step_size);
        }
        self.last_rate = rate;
        Step {
            data: ControllerData { sim_data: *d3, rate },
            frequency: move_from(d3.frequency, self.direction, self.step_size),
            settle: Fixed::from_raw(SETTLE_TIME),
        }
    }
}

/// Draws a boolean with `rand::random`, from the thread's generator. Nothing
/// is claimed of the value: either outcome may come back on any call.
#[verifier::external_body]
fn coin() -> (heads: bool) {
    rand::random::<bool>()
}

impl RandController {
    #[verifier::type_invariant]
    spec fn step_in_range(self) -> bool {
        MIN_STEP <= self.step_size <= INITIAL_STEP
    }

    /// The step that the controller makes when the coin has come up `flip`:
    /// on `true` it reverses and shrinks the step, on `false` it keeps both.
    /// The reported rate is zero.
    pub fn control_step_with(&mut self, d3: &SimData, flip: bool) -> (r: Step)
        ensures
            final(self).moving_up() == (old(self).moving_up() != flip),
            final(self).step_size() == (if flip {
                shrunk(old(self).step_size())
            } else {
                old(self).step_size()
            }),
            MIN_STEP <= final(self).step_size() <= old(self).step_size() <= INITIAL_STEP,
            r.data.sim_data == *d3,
            r.data.rate@ == Some(0int),
            r.frequency@ == moved(d3.frequency@, final(self).moving_up(), final(self).step_size()),
            r.settle@ == Some(SETTLE_TIME as int),
    {
        proof {
            use_type_invariant(&*self);
        }
        if flip {
            self.direction = !self.direction;
            self.step_size = shrink(self.step_size);
        }
        Step {
            data: ControllerData { sim_data: *d3, rate: Fixed::from_raw(0) },
            frequency: move_from(d3.frequency, self.direction, self.step_size),
            settle: Fixed::from_raw(SETTLE_TIME),
        }
    }
}

impl Controller for RandController {
    /// Always zero: this controller measures nothing.
    closed spec fn last_rate(&self) -> Option<int> {
        Some(0int)
    }

    closed spec fn moving_up(&self) -> bool {
        self.direction
    }

    closed spec fn step_size(&self) -> int {
        self.step_size as int
    }

    /// The step either keeps direction and step size, or reverses and
    /// shrinks the step; the data points have no say.
    open spec fn steps_to(&self, d1: SimData, d2: SimData, d3: SimData, after: Self) -> bool {
        (after.moving_up(), after.step_size()) == (self.moving_up(), self.step_size()) || (
        after.moving_up(),
        after.step_size(),
        ) == (!self.moving_up(), shrunk(self.step_size()))
    }

    fn new() -> (c: Self) {
        RandController { direction: true, step_size: INITIAL_STEP }
    }

    fn current_step_size(&self) -> (s: Fixed) {
        proof {
            use_type_invariant(self);
        }
        Fixed::from_raw(self.step_size)
    }

    fn direction(&self) -> (up: bool) {
        self.direction
    }

    fn take_data(&self, sim_data: SimData) -> (r: ControllerData) {
        ControllerData { sim_data, rate: Fixed::from_raw(0) }
    }

    /// Reverses or not by the toss of a coin, whatever the data points say.
    fn control_step(&mut self, d1: &SimData, d2: &SimData, d3: &SimData) -> (r: Step)
        ensures
            r.data.rate@ == Some(0int),
    {
        let flip: bool = coin();
        self.control_step_with(d3, flip)
    }
}

/// The step size after `n` reversals, starting from `step`.
pub open spec fn shrunk_times(step: int, n: nat) -> int
    decreases n,
{
    if n == 0 {
        step
    } else {
        shrunk(shrunk_times(step, (n - 1) as nat))
    }
}

/// A reversal never takes the step size below the floor, and never makes it
/// larger.
pub proof fn lemma_shrunk_in_range(step: int)
    requires
        MIN_STEP <= step,
    ensures
        MIN_STEP <= shrunk(step) <= step,
{
}

/// However often the controller reverses, the step size stays between the
/// floor and the initial step size.
pub proof fn lemma_step_size_floor(n: nat)
    ensures
        MIN_STEP <= shrunk_times(INITIAL_STEP as int, n) <= INITIAL_STEP,
    decreases n,
{
    if n > 0 {
        lemma_step_size_floor((n - 1) as nat);
        lemma_shrunk_in_range(shrunk_times(INITIAL_STEP as int, (n - 1) as nat));
    }
}

/// Controller data taken twice for the same data point, with no step in
/// between, is the same record.
pub proof fn lemma_take_data_repeatable<C: Controller>(
    controller: C,
    sim_data: SimData,
    first: ControllerData,
    second: ControllerData,
)
    requires
        first.sim_data == sim_data,
        first.rate@ == controller.last_rate(),
        second.sim_data == sim_data,
        second.rate@ == controller.last_rate(),
    ensures
        first == second,
{
}

/// The random controller reports the rate zero in every state.
pub proof fn lemma_random_rate_is_zero(controller: RandController)
    ensures
        controller.last_rate() == Some(0int),
{
}

} // verus!
