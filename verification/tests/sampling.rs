use polsim::fixed::Fixed;
use polsim::pdp::{Pdp, SWEEP_STEP, SWEEP_TIME, SWEEP_UNCERTAINTY};
use polsim::simulation::SimData;

fn data(time: i64, pn: i64) -> SimData {
    SimData {
        time: Fixed::from_raw(time),
        pn: Fixed::from_raw(pn),
        pe: Fixed::from_raw(-990_000_000),
        frequency: Fixed::from_raw(140_150_000_000),
        c: Fixed::from_raw(136_073),
        temperature: Fixed::from_raw(1_000_000_000),
        dose: Fixed::from_raw(5),
    }
}

#[test]
fn sweep_constants() {
    assert_eq!(SWEEP_TIME, 64_000_000);
    assert_eq!(SWEEP_STEP, 1_000_000);
    assert_eq!(SWEEP_UNCERTAINTY, 40_000_000);
}

#[test]
fn sample_is_the_mean_of_the_sweeps() {
    let pdp = Pdp::new(4);
    assert_eq!(pdp.n_sweeps, 4);
    let readings = vec![
        Fixed::from_raw(500_000_000),
        Fixed::from_raw(600_000_000),
        Fixed::from_raw(700_000_000),
        Fixed::from_raw(800_000_000),
    ];
    let last = data(256_000_000, 790_000_000);
    let sample = pdp.take_data(&readings, last);
    assert_eq!(sample.pn.raw, Some(650_000_000));
    assert_eq!(sample, SimData { pn: Fixed::from_raw(650_000_000), ..last });
}

#[test]
fn sample_mean_rounds_toward_zero() {
    let pdp = Pdp::new(3);
    let readings = vec![Fixed::from_raw(-1), Fixed::from_raw(-1), Fixed::from_raw(0)];
    assert_eq!(pdp.take_data(&readings, data(0, 0)).pn.raw, Some(0));
    let readings = vec![Fixed::from_raw(3), Fixed::from_raw(3), Fixed::from_raw(4)];
    assert_eq!(pdp.take_data(&readings, data(0, 0)).pn.raw, Some(3));
}

#[test]
fn sample_of_no_sweeps_is_undefined() {
    let pdp = Pdp::new(0);
    let last = data(0, 123);
    let sample = pdp.take_data(&Vec::new(), last);
    assert_eq!(sample.pn.raw, None);
    assert_eq!(sample.time, last.time);
    assert_eq!(sample.dose, last.dose);
}

#[test]
fn undefined_sweep_makes_the_sample_undefined() {
    let pdp = Pdp::new(2);
    let readings = vec![Fixed::from_raw(500_000_000), Fixed::undefined()];
    assert_eq!(pdp.take_data(&readings, data(0, 0)).pn.raw, None);
}

#[test]
fn sample_run_is_pending_before_the_final_time() {
    let pdp = Pdp::new(2);
    let run = pdp.run_until_iter(Fixed::from_raw(1_000_000_000));
    assert!(run.pending(&data(0, 0)));
    assert!(run.pending(&data(999_999_999, 0)));
    assert!(!run.pending(&data(1_000_000_000, 0)));
    assert!(!run.pending(&data(1_000_000_001, 0)));
}

#[test]
fn sample_run_for_starts_at_the_current_time() {
    let pdp = Pdp::new(2);
    let now = data(128_000_000, 0);
    let run = pdp.run_for_iter(&now, Fixed::from_raw(2_000_000_000));
    assert_eq!(run.t_final.raw, Some(2_128_000_000));
    assert!(run.pending(&now));
    let never = pdp.run_for_iter(&now, Fixed::undefined());
    assert!(!never.pending(&now));
}
