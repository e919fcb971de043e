use simcore::math::Fraction;
use simcore::tick::{ClockError, PhysicsTick, SimulationTick, TickSignal};

/// Runs one frame: takes the delta in and drains the backlog. Gives the ticks emitted.
fn frame(clock: &mut PhysicsTick, dt: i64) -> u64 {
    let mut ticks = 0;
    loop {
        match clock.advance(dt).unwrap() {
            TickSignal::NoTick => return ticks,
            TickSignal::One => return ticks + 1,
            TickSignal::OneAndMore => ticks += 1,
        }
    }
}

#[test]
fn default_clock_ticks_twenty_times_a_second() {
    let clock = PhysicsTick::default();
    assert_eq!(clock.rate(), 20);
    assert_eq!(clock.delta(), 50_000_000);
    assert!(!clock.is_looping());
    assert_eq!(clock.percent().part, 0);
    assert_eq!(clock.percent().whole, 50_000_000);
}

#[test]
fn with_rate_takes_rates_that_give_a_tick() {
    assert!(PhysicsTick::with_rate(0).is_none());
    assert!(PhysicsTick::with_rate(1_000_000_001).is_none());
    let slow = PhysicsTick::with_rate(1).unwrap();
    assert_eq!(slow.delta(), 1_000_000_000);
    let fast = PhysicsTick::with_rate(1_000_000_000).unwrap();
    assert_eq!(fast.delta(), 1);
    let third = PhysicsTick::with_rate(3).unwrap();
    assert_eq!(third.rate(), 3);
    assert_eq!(third.delta(), 333_333_333);
}

#[test]
fn short_frame_emits_no_tick() {
    let mut clock = PhysicsTick::default();
    assert_eq!(clock.advance(49_999_999), Ok(TickSignal::NoTick));
    assert_eq!(clock.percent().part, 49_999_999);
    assert!(!clock.is_looping());
    assert_eq!(clock.advance(1), Ok(TickSignal::One));
    assert_eq!(clock.percent().part, 0);
}

#[test]
fn frame_of_one_tick_emits_one() {
    let mut clock = PhysicsTick::default();
    assert_eq!(clock.advance(50_000_000), Ok(TickSignal::One));
    assert_eq!(clock.percent().part, 0);
    assert!(!clock.is_looping());
}

#[test]
fn catch_up_emits_three_ticks_for_three_tick_durations() {
    let mut clock = PhysicsTick::default();
    assert_eq!(clock.advance(150_000_000), Ok(TickSignal::OneAndMore));
    assert!(clock.is_looping());
    assert_eq!(clock.advance(150_000_000), Ok(TickSignal::OneAndMore));
    assert!(clock.is_looping());
    assert_eq!(clock.advance(150_000_000), Ok(TickSignal::One));
    assert!(!clock.is_looping());
    assert_eq!(clock.percent().part, 0);
    assert_eq!(clock.advance(0), Ok(TickSignal::NoTick));
}

#[test]
fn draining_clock_takes_no_time_in() {
    let mut clock = PhysicsTick::default();
    assert_eq!(clock.advance(120_000_000), Ok(TickSignal::OneAndMore));
    assert_eq!(clock.percent().part, 70_000_000);
    assert_eq!(clock.advance(1_000_000_000), Ok(TickSignal::One));
    assert_eq!(clock.percent().part, 20_000_000);
    assert!(!clock.is_looping());
}

#[test]
fn negative_delta_is_refused_and_changes_nothing() {
    let mut clock = PhysicsTick::default();
    assert_eq!(clock.advance(30_000_000), Ok(TickSignal::NoTick));
    assert_eq!(clock.advance(-1), Err(ClockError::InvalidDelta));
    assert_eq!(clock.advance(i64::MIN), Err(ClockError::InvalidDelta));
    assert_eq!(clock.percent().part, 30_000_000);
    assert!(!clock.is_looping());
    assert_eq!(clock.advance(20_000_000), Ok(TickSignal::One));
}

#[test]
fn negative_delta_is_refused_while_draining() {
    let mut clock = PhysicsTick::default();
    assert_eq!(clock.advance(100_000_000), Ok(TickSignal::OneAndMore));
    assert_eq!(clock.advance(-5), Err(ClockError::InvalidDelta));
    assert!(clock.is_looping());
    assert_eq!(clock.percent().part, 50_000_000);
}

#[test]
fn largest_delta_is_taken_in() {
    let mut clock = PhysicsTick::default();
    assert_eq!(clock.advance(49_999_999), Ok(TickSignal::NoTick));
    assert_eq!(clock.advance(i64::MAX), Ok(TickSignal::OneAndMore));
    assert_eq!(clock.percent().part, 9_223_372_036_854_775_807 + 49_999_999 - 50_000_000);
}

#[test]
fn time_is_conserved_over_frames() {
    let mut clock = PhysicsTick::default();
    let frames: [i64; 9] =
        [16_666_667, 16_666_667, 16_666_666, 33_000_000, 4_000_000, 250_000_000, 0, 1, 49_999_999];
    let mut ticks: u64 = 0;
    let mut taken: u64 = 0;
    for dt in frames {
        ticks += frame(&mut clock, dt);
        taken += dt as u64;
        assert!(!clock.is_looping());
        assert!(clock.percent().part < clock.percent().whole);
        assert_eq!(ticks * clock.delta() + clock.percent().part, taken);
    }
    assert_eq!(ticks, 7);
    assert_eq!(clock.percent().part, 37_000_000);
}

#[test]
fn percent_stays_below_one_on_a_settled_clock() {
    let mut clock = PhysicsTick::with_rate(60).unwrap();
    let mut dt: i64 = 1;
    for _ in 0..200 {
        frame(&mut clock, dt);
        let percent = clock.percent();
        assert!(percent.whole > 0);
        assert!(percent.part < percent.whole);
        dt = (dt * 7 + 13) % 40_000_000;
    }
}

#[test]
fn catch_up_leaves_the_rest_of_a_long_frame() {
    let mut clock = PhysicsTick::with_rate(10).unwrap();
    assert_eq!(frame(&mut clock, 1_234_567_890), 12);
    assert_eq!(clock.percent().part, 34_567_890);
}

#[test]
fn second_clock_ticks_ten_times_a_second() {
    let mut clock = SimulationTick::default();
    assert_eq!(clock.rate(), 100_000_000);
    assert!(!clock.is_looping());
    assert_eq!(clock.percent(), Fraction { part: 0, whole: 100_000_000 });
    assert_eq!(clock.tick(60_000_000), Ok(TickSignal::NoTick));
    assert_eq!(clock.percent(), Fraction { part: 60_000_000, whole: 100_000_000 });
    assert_eq!(clock.tick(60_000_000), Ok(TickSignal::One));
    assert_eq!(clock.percent(), Fraction { part: 20_000_000, whole: 100_000_000 });
    assert!(!clock.is_looping());
    assert_eq!(clock.tick(10_000_000), Ok(TickSignal::NoTick));
    assert_eq!(clock.percent().part, 30_000_000);
}

#[test]
fn second_clock_catches_up_on_a_long_frame() {
    let mut clock = SimulationTick::default();
    assert_eq!(clock.tick(300_000_000), Ok(TickSignal::OneAndMore));
    assert!(clock.is_looping());
    assert_eq!(clock.tick(300_000_000), Ok(TickSignal::OneAndMore));
    assert_eq!(clock.tick(300_000_000), Ok(TickSignal::One));
    assert!(!clock.is_looping());
    assert_eq!(clock.percent().part, 0);
    assert_eq!(clock.tick(0), Ok(TickSignal::NoTick));
    assert_eq!(clock.tick(350_000_000), Ok(TickSignal::OneAndMore));
    assert_eq!(clock.tick(0), Ok(TickSignal::OneAndMore));
    assert_eq!(clock.tick(0), Ok(TickSignal::One));
    assert_eq!(clock.percent(), Fraction { part: 50_000_000, whole: 100_000_000 });
}

#[test]
fn second_clock_refuses_a_negative_delta() {
    let mut clock = SimulationTick::default();
    assert_eq!(clock.tick(40), Ok(TickSignal::NoTick));
    assert_eq!(clock.tick(-1), Err(ClockError::InvalidDelta));
    assert_eq!(clock.percent().part, 40);
    assert_eq!(clock.tick(i64::MAX), Ok(TickSignal::OneAndMore));
    assert_eq!(clock.tick(-1), Err(ClockError::InvalidDelta));
    assert!(clock.is_looping());
    assert_eq!(clock.percent().part, 9_223_372_036_854_775_807 + 40 - 100_000_000);
}

#[test]
fn second_clock_stays_below_one_tick_once_drained() {
    let mut clock = SimulationTick::default();
    let mut dt: i64 = 3;
    let mut ticks: u64 = 0;
    let mut taken: u64 = 0;
    for _ in 0..200 {
        taken += dt as u64;
        loop {
            match clock.tick(dt).unwrap() {
                TickSignal::NoTick => break,
                TickSignal::One => {
                    ticks += 1;
                    break;
                }
                TickSignal::OneAndMore => ticks += 1,
            }
        }
        assert!(!clock.is_looping());
        assert!(clock.percent().part < clock.percent().whole);
        assert_eq!(ticks * clock.rate() + clock.percent().part, taken);
        dt = (dt * 7 + 13) % 450_000_000;
    }
}
