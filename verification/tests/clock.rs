use polsim::fixed::Fixed;
use polsim::simulation::{Clock, RunUntil, TIME_STEP};

fn fx(raw: i64) -> Fixed {
    Fixed::from_raw(raw)
}

fn drain(run: &RunUntil, clock: &mut Clock) -> Vec<Option<i64>> {
    let mut times = Vec::new();
    while let Some(t) = run.next(clock) {
        times.push(t.raw);
        assert!(times.len() < 10_000);
    }
    times
}

#[test]
fn clock_starts_at_zero() {
    let clock = Clock::new();
    assert_eq!(clock.now().raw, Some(0));
    assert_eq!(TIME_STEP, 1_000_000_000);
}

#[test]
fn tick_adds_the_step() {
    let mut clock = Clock::new();
    clock.tick(fx(1_000_000));
    clock.tick(fx(1_000_000));
    assert_eq!(clock.now().raw, Some(2_000_000));
}

#[test]
fn run_for_reports_times_before_each_step() {
    let mut clock = Clock::new();
    clock.tick(fx(7_000_000_000));
    let run = clock.run_for(fx(3_000_000_000));
    assert_eq!(run.t_final.raw, Some(10_000_000_000));
    let times = drain(&run, &mut clock);
    assert_eq!(
        times,
        vec![Some(7_000_000_000), Some(8_000_000_000), Some(9_000_000_000)]
    );
    assert_eq!(clock.now().raw, Some(10_000_000_000));
}

#[test]
fn run_until_passes_a_final_time_between_steps() {
    let mut clock = Clock::new();
    let run = clock.run_until(fx(2_500_000_000));
    let times = drain(&run, &mut clock);
    assert_eq!(times, vec![Some(0), Some(1_000_000_000), Some(2_000_000_000)]);
    assert_eq!(clock.now().raw, Some(3_000_000_000));
}

#[test]
fn run_times_are_spaced_by_the_step() {
    let mut clock = Clock::new();
    clock.tick(fx(500_000_000));
    let run = clock.run_for(fx(20_000_000_000));
    let times = drain(&run, &mut clock);
    assert_eq!(times.len(), 20);
    for (i, t) in times.iter().enumerate() {
        let t = t.unwrap();
        assert_eq!(t, 500_000_000 + (i as i64) * TIME_STEP);
        assert!(t >= 500_000_000 && t < 20_500_000_000);
    }
}

#[test]
fn finished_run_leaves_the_clock() {
    let mut clock = Clock::new();
    clock.tick(fx(5_000_000_000));
    let run = clock.run_until(fx(5_000_000_000));
    assert_eq!(run.next(&mut clock), None);
    assert_eq!(clock.now().raw, Some(5_000_000_000));
    let earlier = clock.run_until(fx(1_000_000_000));
    assert_eq!(earlier.next(&mut clock), None);
    assert_eq!(clock.now().raw, Some(5_000_000_000));
}

#[test]
fn a_sweep_takes_sixty_four_fine_steps() {
    let mut clock = Clock::new();
    let run = clock.run_for_with_step(fx(64_000_000), fx(1_000_000));
    assert_eq!(run.step.raw, Some(1_000_000));
    let times = drain(&run, &mut clock);
    assert_eq!(times.len(), 64);
    assert_eq!(times[63], Some(63_000_000));
    assert_eq!(clock.now().raw, Some(64_000_000));
}

#[test]
fn run_to_an_undefined_time_is_empty() {
    let mut clock = Clock::new();
    let run = clock.run_until(Fixed::undefined());
    assert_eq!(run.next(&mut clock), None);
    let too_far = clock.run_for(fx(i64::MAX)).t_final;
    assert_eq!(too_far.raw, Some(i64::MAX));
    clock.tick(fx(1));
    assert_eq!(clock.run_for(fx(i64::MAX)).t_final.raw, None);
}

#[test]
fn run_stops_when_the_clock_leaves_the_range() {
    let mut clock = Clock::new();
    clock.tick(fx(i64::MAX - 1_500_000_000));
    let run = clock.run_until(fx(i64::MAX));
    let times = drain(&run, &mut clock);
    assert_eq!(
        times,
        vec![Some(i64::MAX - 1_500_000_000), Some(i64::MAX - 500_000_000)]
    );
    assert_eq!(clock.now().raw, None);
}

#[test]
fn drain_collects_the_whole_run() {
    let mut clock = Clock::new();
    clock.tick(fx(250_000_000));
    let run = clock.run_for(fx(3_000_000_000));
    let times: Vec<Option<i64>> = run.drain(&mut clock).iter().map(|t| t.raw).collect();
    assert_eq!(
        times,
        vec![Some(250_000_000), Some(1_250_000_000), Some(2_250_000_000)]
    );
    assert_eq!(clock.now().raw, Some(3_250_000_000));
}

#[test]
fn drain_agrees_with_stepping() {
    let mut stepped = Clock::new();
    let mut drained = Clock::new();
    let run = stepped.run_for_with_step(fx(1_000_000_000), fx(300_000_000));
    let by_steps = drain(&run, &mut stepped);
    let at_once: Vec<Option<i64>> = run.drain(&mut drained).iter().map(|t| t.raw).collect();
    assert_eq!(by_steps, at_once);
    assert_eq!(
        at_once,
        vec![Some(0), Some(300_000_000), Some(600_000_000), Some(900_000_000)]
    );
    assert_eq!(stepped, drained);
    assert_eq!(drained.now().raw, Some(1_200_000_000));
}

#[test]
fn drain_of_a_finished_run_is_empty() {
    let mut clock = Clock::new();
    clock.tick(fx(4_000_000_000));
    let run = clock.run_until(fx(4_000_000_000));
    assert!(run.drain(&mut clock).is_empty());
    assert_eq!(clock.now().raw, Some(4_000_000_000));
    let undefined = clock.run_until(Fixed::undefined());
    assert!(undefined.drain(&mut clock).is_empty());
}

#[test]
fn drain_ends_when_the_clock_leaves_the_range() {
    let mut clock = Clock::new();
    clock.tick(fx(i64::MAX - 1_500_000_000));
    let run = clock.run_until(fx(i64::MAX));
    assert_eq!(run.drain(&mut clock).len(), 2);
    assert_eq!(clock.now().raw, None);
}
