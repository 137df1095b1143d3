use tonegen::config::BLOCK_SIZE;
use tonegen::config::DIM;
use tonegen::config::FREQ_HZ;
use tonegen::config::PREVIEW_TURNS;
use tonegen::config::STACK_DEPTH;
use tonegen::config::StereoMode;
use tonegen::config::VAR_RATE;
use tonegen::config::ratio_quarters;
use tonegen::config::state_sets;
use tonegen::schedule::RenormClock;
use tonegen::schedule::renorm_threshold;

#[test]
fn threshold_values() {
    assert_eq!(renorm_threshold(48000), 375);
    assert_eq!(renorm_threshold(44100), 344);
    assert_eq!(renorm_threshold(128), 1);
    assert_eq!(renorm_threshold(127), 0);
    assert_eq!(renorm_threshold(0), 0);
}

#[test]
fn clock_fires_exactly_at_threshold() {
    let mut clock = RenormClock::new(48000);
    assert_eq!(clock.threshold, 375);
    for round in 0..2 {
        for k in 1..375 {
            assert!(!clock.tick(), "fired early at block {} of round {}", k, round);
        }
        assert!(clock.tick());
        assert_eq!(clock.count, 0);
    }
}

#[test]
fn clock_with_zero_threshold_fires_every_block() {
    let mut clock = RenormClock::new(100);
    assert_eq!(clock.threshold, 0);
    for _ in 0..10 {
        assert!(clock.tick());
        assert_eq!(clock.count, 0);
    }
}

#[test]
fn clock_with_threshold_one_fires_every_block() {
    let mut clock = RenormClock::new(200);
    assert_eq!(clock.threshold, 1);
    for _ in 0..10 {
        assert!(clock.tick());
    }
}

#[test]
fn ratio_table_in_quarters() {
    let expected: [u32; 7] = [4, 5, 6, 8, 10, 12, 16];
    for i in 0..7 {
        assert_eq!(ratio_quarters(i), expected[i]);
    }
}

#[test]
fn ratio_table_in_whole_units() {
    let expected: [f32; 7] = [1.0, 1.25, 1.5, 2.0, 2.5, 3.0, 4.0];
    for i in 0..7 {
        assert_eq!(ratio_quarters(i) as f32 / 4.0, expected[i]);
    }
}

#[test]
fn fixed_configuration() {
    assert_eq!(DIM, 7);
    assert_eq!(STACK_DEPTH, 3);
    assert_eq!(BLOCK_SIZE, 128);
    assert_eq!(FREQ_HZ, 100);
    assert_eq!(VAR_RATE, 3);
    assert_eq!(PREVIEW_TURNS, 4);
}

#[test]
fn state_sets_per_mode() {
    assert_eq!(state_sets(StereoMode::Independent), 2);
    assert_eq!(state_sets(StereoMode::PhaseCoupled), 1);
    assert_eq!(StereoMode::Independent, StereoMode::Independent);
    assert_ne!(StereoMode::Independent, StereoMode::PhaseCoupled);
}
