use chibi::config::ChibiConfig;
use chibi::detector::{plan, Action, Detector, FLICKER_MAX_MS, FLICKER_MIN_MS};
use chibi::level::CaptureError;

fn config(threshold: u8, deadband: u8, flicker: bool) -> ChibiConfig {
    ChibiConfig {
        microphone_threshold: threshold,
        deadband_factor: deadband,
        flicker_input: flicker,
    }
}

fn trace(config: &ChibiConfig, levels: &[u32]) -> Vec<bool> {
    let mut detector = Detector::new(0);
    let mut states = Vec::new();
    for level in levels {
        states.push(detector.advance(*level, config));
    }
    states
}

fn events(actions: &[Action]) -> Vec<bool> {
    let mut out = Vec::new();
    for action in actions {
        if let Action::Emit(event) = action {
            out.push(*event);
        }
    }
    out
}

#[test]
fn a_new_detector_is_inactive_and_empty() {
    let detector = Detector::new(16);
    assert!(!detector.is_active());
    assert!(detector.recorded_samples().is_empty());
    assert_eq!(detector.record_limit(), 16);
}

#[test]
fn levels_around_the_band_follow_the_two_thresholds() {
    // Threshold 0.5 and deadband 0.5: on at 0.5, off below 0.25.
    let config = config(50, 50, false);
    let levels = [1000, 6000, 4000, 3000, 2400, 6000];
    assert_eq!(
        trace(&config, &levels),
        vec![false, true, true, true, false, true]
    );
}

#[test]
fn the_turn_on_level_itself_turns_on() {
    let config = config(50, 50, false);
    assert_eq!(trace(&config, &[4999]), vec![false]);
    assert_eq!(trace(&config, &[5000]), vec![true]);
}

#[test]
fn the_turn_off_level_itself_keeps_active() {
    let config = config(50, 50, false);
    assert_eq!(trace(&config, &[5000, 2500]), vec![true, true]);
    assert_eq!(trace(&config, &[5000, 2499]), vec![true, false]);
}

#[test]
fn levels_inside_the_band_never_toggle() {
    let config = config(50, 50, false);
    let band = [2500, 4999, 3000, 2501, 4000, 2500];
    assert_eq!(trace(&config, &band), vec![false; 6]);
    let mut active = vec![5000];
    active.extend_from_slice(&band);
    assert_eq!(trace(&config, &active), vec![true; 7]);
}

#[test]
fn silence_with_a_zero_threshold_turns_active() {
    let config = config(0, 30, false);
    let mut detector = Detector::new(8);
    let actions = detector.process(&[0, 0, 0, 0], &config).unwrap();
    assert!(detector.is_active());
    assert_eq!(actions, vec![Action::Emit(true)]);
}

#[test]
fn silence_keeps_an_inactive_detector_inactive() {
    for threshold in 1..=100u8 {
        for deadband in [0u8, 30, 100] {
            for flicker in [false, true] {
                let config = config(threshold, deadband, flicker);
                let mut detector = Detector::new(8);
                let actions = detector.process(&[0; 64], &config).unwrap();
                assert!(!detector.is_active());
                assert_eq!(actions, vec![Action::Emit(false)]);
                assert!(detector.recorded_samples().is_empty());
            }
        }
    }
}

#[test]
fn silence_turns_an_active_detector_inactive() {
    let config = config(12, 30, false);
    let mut detector = Detector::new(0);
    detector.process(&[32767; 4], &config).unwrap();
    assert!(detector.is_active());
    let actions = detector.process(&[0; 4], &config).unwrap();
    assert!(!detector.is_active());
    assert_eq!(actions, vec![Action::Emit(false)]);
}

#[test]
fn silence_keeps_active_when_the_turn_off_level_is_zero() {
    let config = config(12, 0, false);
    let mut detector = Detector::new(0);
    detector.process(&[32767; 4], &config).unwrap();
    detector.process(&[0; 4], &config).unwrap();
    assert!(detector.is_active());
}

#[test]
fn constant_amplitude_turns_on_at_the_threshold() {
    // A threshold of 0.5 is reached from an amplitude of 16383.5 on.
    let config = config(50, 30, false);
    let mut below = Detector::new(0);
    below.process(&[16383, -16383, 16383], &config).unwrap();
    assert!(!below.is_active());
    let mut above = Detector::new(0);
    above.process(&[16384, -16384, 16384], &config).unwrap();
    assert!(above.is_active());
}

#[test]
fn constant_amplitude_against_every_threshold() {
    for threshold in 1..=100u8 {
        let config = config(threshold, 30, false);
        for amplitude in [0i16, 1, 327, 328, 3276, 3277, 16383, 16384, 32766, 32767] {
            let mut detector = Detector::new(0);
            detector.process(&[amplitude, -amplitude], &config).unwrap();
            let reaches = (amplitude as i64) * 100 >= (threshold as i64) * 32767;
            assert_eq!(detector.is_active(), reaches);
        }
    }
}

#[test]
fn a_higher_threshold_is_active_in_no_more_blocks() {
    let levels = [
        0, 1200, 400, 360, 359, 5000, 1499, 1500, 9000, 2700, 2699, 10000, 0, 3000,
    ];
    for low in [0u8, 12, 50, 90] {
        for high in [low, low + 1, low + 10] {
            let first = trace(&config(low, 30, false), &levels);
            let second = trace(&config(high, 30, false), &levels);
            for i in 0..levels.len() {
                assert!(!second[i] || first[i]);
            }
            let count = |states: &Vec<bool>| states.iter().filter(|s| **s).count();
            assert!(count(&second) <= count(&first));
        }
    }
}

#[test]
fn held_input_without_flicker_gives_only_true() {
    let config = config(12, 30, false);
    let mut detector = Detector::new(0);
    let mut seen = Vec::new();
    for _ in 0..5 {
        let actions = detector.process(&[20000, -20000], &config).unwrap();
        assert_eq!(actions, vec![Action::Emit(true)]);
        seen.extend(events(&actions));
    }
    assert_eq!(seen, vec![true; 5]);
}

#[test]
fn held_input_with_flicker_gives_alternating_events() {
    let config = config(12, 30, true);
    let mut detector = Detector::new(0);
    let mut seen = Vec::new();
    for _ in 0..5 {
        let actions = detector.process(&[20000, -20000], &config).unwrap();
        assert_eq!(actions.len(), 3);
        assert_eq!(actions[0], Action::Emit(true));
        assert_eq!(actions[2], Action::Emit(false));
        seen.extend(events(&actions));
        assert!(detector.is_active());
    }
    assert_eq!(
        seen,
        vec![true, false, true, false, true, false, true, false, true, false]
    );
}

#[test]
fn the_flicker_pause_lies_in_its_range() {
    let config = config(12, 30, true);
    let mut detector = Detector::new(0);
    let mut smallest = u64::MAX;
    let mut largest = 0;
    for _ in 0..2000 {
        let actions = detector.process(&[20000], &config).unwrap();
        match actions[1] {
            Action::Pause(pause_ms) => {
                assert!(FLICKER_MIN_MS <= pause_ms && pause_ms <= FLICKER_MAX_MS);
                smallest = smallest.min(pause_ms);
                largest = largest.max(pause_ms);
            }
            Action::Emit(_) => panic!("the second action of a pulse is the pause"),
        }
    }
    // 2000 draws from 71 values: more than one value comes up.
    assert!(smallest < largest);
}

#[test]
fn flicker_does_not_touch_an_inactive_detector() {
    let config = config(50, 50, true);
    let mut detector = Detector::new(0);
    let actions = detector.process(&[100, -100], &config).unwrap();
    assert_eq!(actions, vec![Action::Emit(false)]);
}

#[test]
fn an_empty_block_is_refused_and_changes_nothing() {
    let config = config(12, 30, false);
    let mut detector = Detector::new(4);
    detector.process(&[32767, 32767], &config).unwrap();
    let result = detector.process(&[], &config);
    assert_eq!(result, Err(CaptureError::EmptyBuffer));
    assert!(detector.is_active());
    assert_eq!(detector.recorded_samples(), &vec![32767, 32767]);
}

#[test]
fn the_plan_for_each_state() {
    assert_eq!(plan(false, false, 30), vec![Action::Emit(false)]);
    assert_eq!(plan(false, true, 30), vec![Action::Emit(false)]);
    assert_eq!(plan(true, false, 30), vec![Action::Emit(true)]);
    assert_eq!(
        plan(true, true, 42),
        vec![Action::Emit(true), Action::Pause(42), Action::Emit(false)]
    );
}

#[test]
fn samples_are_kept_only_while_active() {
    let config = config(50, 50, false);
    let mut detector = Detector::new(100);
    detector.process(&[10, 20, 30], &config).unwrap();
    assert!(detector.recorded_samples().is_empty());
    detector.process(&[30000, -30000], &config).unwrap();
    assert_eq!(detector.recorded_samples(), &vec![30000, -30000]);
    // Inside the band the detector stays active and goes on keeping.
    detector.process(&[10000, 10000], &config).unwrap();
    assert_eq!(
        detector.recorded_samples(),
        &vec![30000, -30000, 10000, 10000]
    );
    detector.process(&[1, 2], &config).unwrap();
    assert!(!detector.is_active());
    assert_eq!(
        detector.recorded_samples(),
        &vec![30000, -30000, 10000, 10000]
    );
}

#[test]
fn kept_samples_stop_at_the_limit() {
    let mut detector = Detector::new(5);
    detector.record(&[1, 2, 3]);
    assert_eq!(detector.recorded_samples(), &vec![1, 2, 3]);
    detector.record(&[4, 5, 6, 7]);
    assert_eq!(detector.recorded_samples(), &vec![1, 2, 3, 4, 5]);
    detector.record(&[8]);
    assert_eq!(detector.recorded_samples(), &vec![1, 2, 3, 4, 5]);
    assert_eq!(detector.record_limit(), 5);
}

#[test]
fn a_limit_of_zero_keeps_nothing() {
    let mut detector = Detector::new(0);
    detector.record(&[1, 2, 3]);
    assert!(detector.recorded_samples().is_empty());
}

#[test]
fn advance_leaves_the_kept_samples_alone() {
    let config = config(50, 50, false);
    let mut detector = Detector::new(3);
    detector.record(&[7, 8]);
    assert!(detector.advance(5000, &config));
    assert_eq!(detector.recorded_samples(), &vec![7, 8]);
}
