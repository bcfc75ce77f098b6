use thermal_governor::bounds::FrequencyBounds;
use thermal_governor::control::{
    decide, decreased_frequency, increased_frequency, Adjustment, DECREASE_DELAY_MILLIS,
    INCREASE_DELAY_MILLIS, STEP_FREQ,
};
use thermal_governor::governor::tick;
use thermal_governor::error::GovernorError;
use thermal_governor::state::FrequencyState;

fn bounds() -> FrequencyBounds {
    FrequencyBounds { min: 800000, max: 3000000 }
}

#[test]
fn spike_decrease_at_overshoot_fifteen() {
    // threshold 70, temperature 85: three spike steps plus the base step.
    let b = bounds();
    assert_eq!(decreased_frequency(2000000, 85, 70, &b), 2000000 - 400000);
    assert_eq!(decreased_frequency(1100000, 85, 70, &b), 800000);
}

#[test]
fn decrease_without_overshoot_is_one_step() {
    let b = bounds();
    assert_eq!(decreased_frequency(2000000, 70, 70, &b), 2000000 - STEP_FREQ);
    assert_eq!(decreased_frequency(2000000, 73, 70, &b), 2000000 - STEP_FREQ);
    assert_eq!(decreased_frequency(2000000, 74, 70, &b), 2000000 - 2 * STEP_FREQ);
}

#[test]
fn decrease_under_huge_overshoot_clamps_to_floor() {
    let b = bounds();
    assert_eq!(decreased_frequency(3000000, u64::MAX, 0, &b), 800000);
    assert_eq!(decreased_frequency(50000, 90, 70, &b), 800000);
}

#[test]
fn decrease_at_floor_stays_at_floor() {
    let b = bounds();
    for t in [71u64, 80, 200, 1000] {
        assert_eq!(decreased_frequency(b.min, t, 70, &b), b.min);
    }
}

#[test]
fn increase_at_ceiling_stays_at_ceiling() {
    let b = bounds();
    assert_eq!(increased_frequency(b.max, &b), b.max);
}

#[test]
fn increase_steps_up_and_clamps() {
    let b = bounds();
    assert_eq!(increased_frequency(1000000, &b), 1100000);
    assert_eq!(increased_frequency(2950000, &b), 3000000);
    let top = FrequencyBounds { min: 0, max: u64::MAX };
    assert_eq!(increased_frequency(u64::MAX - 1, &top), u64::MAX);
}

#[test]
fn adjustments_stay_in_bounds_and_keep_direction() {
    let b = bounds();
    let mut f = b.min;
    while f <= b.max {
        for t in [0u64, 64, 70, 71, 85, 150] {
            let d = decreased_frequency(f, t, 70, &b);
            assert!(b.min <= d && d <= f);
        }
        let i = increased_frequency(f, &b);
        assert!(f <= i && i <= b.max);
        f += 37000;
    }
}

#[test]
fn dead_band_schedules_nothing() {
    let b = bounds();
    for t in 65u64..=70 {
        assert_eq!(decide(t, 70, 2000000, &b), None);
        assert_eq!(decide(t, 70, b.min, &b), None);
        assert_eq!(decide(t, 70, b.max, &b), None);
    }
}

#[test]
fn decide_branches() {
    let b = bounds();
    assert_eq!(
        decide(71, 70, 2000000, &b),
        Some(Adjustment::Decrease { temperature: 71, threshold: 70 })
    );
    assert_eq!(decide(71, 70, b.min, &b), None);
    assert_eq!(decide(64, 70, 2000000, &b), Some(Adjustment::Increase));
    assert_eq!(decide(64, 70, b.max, &b), None);
    // A threshold under the hysteresis width never lets the ceiling rise.
    assert_eq!(decide(0, 4, 2000000, &b), None);
}

#[test]
fn delays_are_asymmetric() {
    let d = Adjustment::Decrease { temperature: 90, threshold: 70 };
    assert_eq!(d.delay_millis(), DECREASE_DELAY_MILLIS);
    assert_eq!(Adjustment::Increase.delay_millis(), INCREASE_DELAY_MILLIS);
    assert!(DECREASE_DELAY_MILLIS < INCREASE_DELAY_MILLIS);
}

#[test]
fn concurrent_decreases_apply_once() {
    let b = bounds();
    let mut s = FrequencyState::new(b);
    assert_eq!(s.current(), b.max);
    let adj = Adjustment::Decrease { temperature: 85, threshold: 70 };
    let first = s.try_claim();
    let second = s.try_claim();
    assert!(first);
    assert!(!second);
    let f = s.complete(adj);
    assert_eq!(f, b.max - 400000);
    assert_eq!(s.current(), b.max - 400000);
    assert!(!s.is_claimed());
}

#[test]
fn claim_is_free_again_after_completion() {
    let b = bounds();
    let mut s = FrequencyState::new(b);
    assert!(s.try_claim());
    assert_eq!(s.complete(Adjustment::Increase), b.max);
    assert!(s.try_claim());
    let f = s.complete(Adjustment::Decrease { temperature: 71, threshold: 70 });
    assert_eq!(f, b.max - STEP_FREQ);
    assert_eq!(s.bounds(), b);
}

#[test]
fn tick_samples_then_decides() {
    let b = bounds();
    let texts = vec![b"45000\n".to_vec(), b"86500\n".to_vec()];
    let out = tick(&texts, 70, 2000000, &b).unwrap();
    assert_eq!(out.temperature, 86);
    assert_eq!(
        out.adjustment,
        Some(Adjustment::Decrease { temperature: 86, threshold: 70 })
    );
    let cool = vec![b"40000\n".to_vec()];
    let out = tick(&cool, 70, 2000000, &b).unwrap();
    assert_eq!(out.adjustment, Some(Adjustment::Increase));
}

#[test]
fn tick_without_sensors_fails() {
    let texts: Vec<Vec<u8>> = Vec::new();
    assert_eq!(tick(&texts, 70, 2000000, &bounds()), Err(GovernorError::Sampling));
}
