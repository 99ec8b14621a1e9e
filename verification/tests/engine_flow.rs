use liftwatch::config::Config;
use liftwatch::engine::Engine;
use liftwatch::measure::{RawSample, ReducedMeasurement};
use liftwatch::motion::MotionPhase;

fn test_config() -> Config {
    Config {
        samples: 3,
        move_threshold_milli: 250,
        // far beyond any representable jump: the sanity guard stays out of
        // the way unless a test wants it
        sanity_threshold_milli: 66_000_000,
        debounce_depth: 5,
        heartbeat_threshold: -60,
        moving_delay_ms: 10,
        stationary_delay_ms: 30,
    }
}

fn measurement(distance_milli: u64) -> ReducedMeasurement {
    ReducedMeasurement {
        distance_milli,
        temperature_milli: 21_500,
    }
}

#[test]
fn end_to_end_motion_scenario() {
    // raw averages 100, 100.3, 100.2, 130, 130.1, 130.0 with threshold
    // 0.25 and debounce 5: stationary for the first three cycles, a motion
    // event at the fourth, still moving through the sixth
    let mut eng = Engine::new(test_config());
    let inputs: [u64; 6] = [100_000, 100_300, 100_200, 130_000, 130_100, 130_000];
    let mut published: Vec<bool> = Vec::new();
    for d in inputs {
        let out = eng.step(measurement(d));
        published.push(out.publish_measurement);
    }
    assert_eq!(published, vec![false, false, false, true, true, true]);
    assert_eq!(eng.motion.phase, MotionPhase::Moving);
}

#[test]
fn engine_discards_incomplete_batches() {
    let mut eng = Engine::new(test_config());
    // bootstrap on one complete batch of constant 100-unit reads
    let good: Vec<Option<RawSample>> = vec![
        Some(RawSample { distance_raw: 100, temperature_raw: 2150 });
        3
    ];
    let out = eng.run_cycle(&good).unwrap();
    assert_eq!(out.height_milli, 100_000);
    assert_eq!(out.temperature_milli, 21_500);
    let stable_before = eng.smoothed.unwrap();
    let countdown_before: i64 = eng.motion.countdown;
    let faults_before: u64 = eng.watchdog.fault_free_reads;

    // a batch with one failed read changes nothing at all
    let bad: Vec<Option<RawSample>> = vec![
        Some(RawSample { distance_raw: 30_000, temperature_raw: 0 }),
        None,
        Some(RawSample { distance_raw: 30_000, temperature_raw: 0 }),
    ];
    assert!(eng.run_cycle(&bad).is_none());
    assert_eq!(eng.smoothed.unwrap(), stable_before);
    assert_eq!(eng.motion.countdown, countdown_before);
    assert_eq!(eng.watchdog.fault_free_reads, faults_before);
}

#[test]
fn stuck_sensor_triggers_one_recovery() {
    let mut eng = Engine::new(test_config());
    let stuck = measurement(42_000);

    let first = eng.step(stuck);
    assert!(!first.trigger_recovery);
    assert_eq!(first.fault_free_reads, 1);

    // bit-identical to the previous cycle: recovery, counter drops to zero
    let second = eng.step(stuck);
    assert!(second.trigger_recovery);
    assert_eq!(second.fault_free_reads, 0);
    eng.recovery_complete();
    assert_eq!(eng.watchdog.consecutive_identical, 0);

    // a distinct value afterwards does not retrigger
    let third = eng.step(measurement(43_000));
    assert!(!third.trigger_recovery);
    assert_eq!(third.fault_free_reads, 1);
}

#[test]
fn publish_failure_leaves_state_unaffected() {
    // the engine never sees a publish outcome: two runs of the same cycles,
    // one imagined with failing publishes and one with succeeding ones,
    // advance bit for bit identically
    let mut eng_publish_ok = Engine::new(test_config());
    let mut eng_publish_failed = Engine::new(test_config());
    for d in [100_000u64, 100_300, 130_000, 42_000, 42_000] {
        let out_ok = eng_publish_ok.step(measurement(d));
        let out_failed = eng_publish_failed.step(measurement(d));
        assert_eq!(out_ok, out_failed);
        assert_eq!(eng_publish_ok.smoothed, eng_publish_failed.smoothed);
        assert_eq!(eng_publish_ok.motion, eng_publish_failed.motion);
        assert_eq!(eng_publish_ok.watchdog, eng_publish_failed.watchdog);
        assert_eq!(eng_publish_ok.prev_reduced, eng_publish_failed.prev_reduced);
    }
}

#[test]
fn heartbeat_period_is_sixty_cycles() {
    let mut eng = Engine::new(test_config());
    let mut heartbeats: Vec<usize> = Vec::new();
    // alternate by one milli-unit so the watchdog never sees a repeat;
    // the blend keeps the stable estimate pinned, so every cycle is quiet
    for k in 1..=130usize {
        let d: u64 = if k % 2 == 0 { 100_001 } else { 100_000 };
        let out = eng.step(measurement(d));
        assert!(!out.trigger_recovery);
        assert!(!out.publish_measurement);
        if out.publish_heartbeat {
            heartbeats.push(k);
        }
    }
    assert_eq!(heartbeats, vec![60, 120]);
}

#[test]
fn sanity_guard_snaps_without_classifying() {
    let mut eng = Engine::new(Config::standard());
    eng.step(measurement(100_000));
    let countdown_before: i64 = eng.motion.countdown;
    // a 30-unit jump is beyond the 5-unit sanity bound: treated as
    // transient noise, reference snaps, no motion is reported
    let out = eng.step(measurement(130_000));
    assert!(!out.publish_measurement);
    assert!(!out.publish_heartbeat);
    assert_eq!(out.height_milli, 130_000);
    assert_eq!(eng.smoothed.unwrap().last_stable, 130_000);
    assert_eq!(eng.motion.countdown, countdown_before);
    assert_eq!(eng.motion.phase, MotionPhase::Stationary);
}

#[test]
fn cadence_follows_classification() {
    let c = test_config();
    let mut eng = Engine::new(c);
    let quiet_out = eng.step(measurement(100_000));
    assert_eq!(quiet_out.next_delay_ms, c.stationary_delay_ms);
    let moving_out = eng.step(measurement(101_000));
    assert!(moving_out.publish_measurement);
    assert_eq!(moving_out.next_delay_ms, c.moving_delay_ms);
}

#[test]
fn became_stationary_after_debounce() {
    let c = test_config();
    let mut eng = Engine::new(c);
    eng.step(measurement(100_000));
    let out = eng.step(measurement(101_000));
    assert!(out.publish_measurement);
    assert_eq!(eng.motion.phase, MotionPhase::Moving);
    // the blend converges back toward the new level; all further cycles are
    // sub-threshold, and the fifth quiet cycle reports rest
    let mut events: Vec<bool> = Vec::new();
    for _ in 0..5 {
        let out = eng.step(measurement(eng.smoothed.unwrap().last_stable));
        events.push(out.became_stationary);
    }
    assert_eq!(events, vec![false, false, false, false, true]);
    assert_eq!(eng.motion.phase, MotionPhase::Stationary);
}
