use liftwatch::config::Config;
use liftwatch::measure::{collect_batch, decode_sample, reduce, Batch, RawSample};
use liftwatch::motion::{classify, MotionEvent, MotionPhase, MotionState};
use liftwatch::smoother::{abs_diff, smooth};
use liftwatch::watchdog::WatchdogState;
use liftwatch::measure::ReducedMeasurement;

fn sample(d: u16, t: u16) -> RawSample {
    RawSample {
        distance_raw: d,
        temperature_raw: t,
    }
}

#[test]
fn decode_register_block() {
    // distance 0x012A = 298, temperature 0x0866 = 2150 (21.50 degrees)
    let buf: Vec<u8> = vec![0x2A, 0x01, 0x00, 0x00, 0x66, 0x08];
    let s = decode_sample(&buf).unwrap();
    assert_eq!(s.distance_raw, 298);
    assert_eq!(s.temperature_raw, 2150);
}

#[test]
fn decode_short_block() {
    let buf: Vec<u8> = vec![0x2A, 0x01, 0x00];
    assert!(decode_sample(&buf).is_none());
}

#[test]
fn batch_discarded_on_any_failure() {
    // one failed read anywhere invalidates the whole batch
    let attempts: Vec<Option<RawSample>> = vec![
        Some(sample(100, 2000)),
        Some(sample(101, 2000)),
        None,
        Some(sample(99, 2000)),
        Some(sample(100, 2000)),
    ];
    assert!(collect_batch(&attempts).is_none());

    let first_fails: Vec<Option<RawSample>> = vec![None, Some(sample(100, 2000))];
    assert!(collect_batch(&first_fails).is_none());
}

#[test]
fn batch_kept_when_all_reads_succeed() {
    let attempts: Vec<Option<RawSample>> = vec![
        Some(sample(100, 2000)),
        Some(sample(101, 2001)),
        Some(sample(102, 2002)),
    ];
    let batch = collect_batch(&attempts).unwrap();
    assert_eq!(batch.samples.len(), 3);
    assert_eq!(batch.samples[0].distance_raw, 100);
    assert_eq!(batch.samples[2].temperature_raw, 2002);
}

#[test]
fn reduce_constant_batch_is_exact() {
    // a constant batch reduces to exactly the constant, whatever the size
    for n in [1usize, 2, 5, 7, 500] {
        let batch = Batch {
            samples: vec![sample(100, 2150); n],
        };
        let m = reduce(&batch);
        assert_eq!(m.distance_milli, 100_000);
        assert_eq!(m.temperature_milli, 21_500);
    }
}

#[test]
fn reduce_averages_in_milli_units() {
    // (100 + 101 + 101) / 3 = 100.666... -> 100666 milli-units
    let batch = Batch {
        samples: vec![sample(100, 2000), sample(101, 2100), sample(101, 2000)],
    };
    let m = reduce(&batch);
    assert_eq!(m.distance_milli, 100_666);
    // (2000 + 2100 + 2000) * 10 / 3 = 20333 milli-degrees
    assert_eq!(m.temperature_milli, 20_333);
}

#[test]
fn smoother_bootstrap_passes_input_through() {
    assert_eq!(smooth(100_000, None), 100_000);
    assert_eq!(smooth(0, None), 0);
}

#[test]
fn smoother_blend_weights_new_value_twice() {
    // prior stable 90.0, new raw 93.0: (2 * 93 + 90) / 3 = 92.0
    assert_eq!(smooth(93_000, Some(90_000)), 92_000);
    // blending equal values is the identity
    assert_eq!(smooth(100_000, Some(100_000)), 100_000);
}

#[test]
fn abs_diff_is_symmetric() {
    assert_eq!(abs_diff(100_300, 100_000), 300);
    assert_eq!(abs_diff(100_000, 100_300), 300);
    assert_eq!(abs_diff(5, 5), 0);
}

fn quiet(s: MotionState, c: &Config) -> (MotionState, MotionEvent) {
    classify(&s, 0, c)
}

#[test]
fn debounce_counts_down_to_stationary() {
    let c = Config::standard();
    let moving = MotionState {
        phase: MotionPhase::Moving,
        countdown: 5,
    };
    // five consecutive sub-threshold cycles end in Stationary
    let (s1, e1) = quiet(moving, &c);
    assert_eq!(s1.phase, MotionPhase::Settling);
    assert_eq!(s1.countdown, 4);
    assert_eq!(e1, MotionEvent::Quiet);
    let (s2, _) = quiet(s1, &c);
    let (s3, _) = quiet(s2, &c);
    let (s4, e4) = quiet(s3, &c);
    assert_eq!(s4.countdown, 1);
    assert_eq!(e4, MotionEvent::Quiet);
    let (s5, e5) = quiet(s4, &c);
    assert_eq!(s5.phase, MotionPhase::Stationary);
    assert_eq!(s5.countdown, 0);
    assert_eq!(e5, MotionEvent::BecameStationary);
}

#[test]
fn motion_during_debounce_resets_window() {
    let c = Config::standard();
    let settling = MotionState {
        phase: MotionPhase::Settling,
        countdown: 2,
    };
    let (s, e) = classify(&settling, 300, &c);
    assert_eq!(s.phase, MotionPhase::Moving);
    assert_eq!(s.countdown, 5);
    assert_eq!(e, MotionEvent::Motion);
}

#[test]
fn heartbeat_fires_every_sixty_stationary_cycles() {
    let c = Config::standard();
    let mut s = MotionState {
        phase: MotionPhase::Stationary,
        countdown: 0,
    };
    let mut heartbeats: Vec<usize> = Vec::new();
    for k in 1..=180usize {
        let (next, ev) = quiet(s, &c);
        if ev == MotionEvent::Heartbeat {
            heartbeats.push(k);
            assert_eq!(next.countdown, 0);
        } else {
            assert_eq!(ev, MotionEvent::Quiet);
        }
        s = next;
    }
    assert_eq!(heartbeats, vec![60, 120, 180]);
}

#[test]
fn watchdog_triggers_on_repeat_and_once_only() {
    let m = ReducedMeasurement {
        distance_milli: 42_000,
        temperature_milli: 21_000,
    };
    let distinct = ReducedMeasurement {
        distance_milli: 42_001,
        temperature_milli: 21_000,
    };
    let w0 = WatchdogState::initial();
    // a repeat of the previous measurement calls for recovery
    let (mut w1, trigger) = w0.check(&Some(m), &m);
    assert!(trigger);
    assert_eq!(w1.fault_free_reads, 0);
    assert_eq!(w1.consecutive_identical, 1);
    w1.recovery_complete();
    assert_eq!(w1.consecutive_identical, 0);
    // a distinct value afterwards does not retrigger
    let (w2, trigger2) = w1.check(&Some(m), &distinct);
    assert!(!trigger2);
    assert_eq!(w2.fault_free_reads, 1);
    assert_eq!(w2.consecutive_identical, 0);
}

#[test]
fn watchdog_counts_fault_free_reads() {
    let a = ReducedMeasurement {
        distance_milli: 1_000,
        temperature_milli: 0,
    };
    let b = ReducedMeasurement {
        distance_milli: 2_000,
        temperature_milli: 0,
    };
    let w0 = WatchdogState::initial();
    let (w1, t1) = w0.check(&None, &a);
    assert!(!t1);
    assert_eq!(w1.fault_free_reads, 1);
    let (w2, t2) = w1.check(&Some(a), &b);
    assert!(!t2);
    assert_eq!(w2.fault_free_reads, 2);
}

#[test]
fn standard_config_values() {
    let c = Config::standard();
    assert_eq!(c.samples, 500);
    assert_eq!(c.move_threshold_milli, 250);
    assert_eq!(c.sanity_threshold_milli, 5_000);
    assert_eq!(c.debounce_depth, 5);
    assert_eq!(c.heartbeat_threshold, -60);
    assert_eq!(c.moving_delay_ms, 10);
    assert_eq!(c.stationary_delay_ms, 30);
}
