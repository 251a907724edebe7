use omnipaxos_kv::clock::ClockSim;
use omnipaxos_kv::clock_config::ClockConfig;
use omnipaxos_kv::clock_config::DEFAULT_DRIFT_RATE;
use omnipaxos_kv::clock_config::DEFAULT_SYNC_FREQ;
use omnipaxos_kv::clock_config::DEFAULT_UNCERTAINTY_BOUND;

#[test]
fn clock_is_monotonic() {
    // drift 0 us/s, +-10 us uncertainty, sync every 100 ms
    let mut clock = ClockSim::new(0, 10, 10);
    let t1 = clock.time_at(0);
    let t2 = clock.time_at(2_000);
    assert!(t2 >= t1);
}

#[test]
fn clock_clock_is_monotonic() {
    // drift 1 us/s, sync every 100 us
    let mut clock = ClockSim::new(1, 0, 10_000);
    let t1 = clock.time_at(0);
    let t2 = clock.time_at(2_000);
    assert!(t2 >= t1);
}

#[test]
fn synchronization_reduces_large_drift_error() {
    // 100 ms/s drift, sync every 500 ms
    let mut clock = ClockSim::new(100_000, 0, 2);

    let before_sync = clock.time_at(300_000);
    let after_sync = clock.time_at(650_000);

    // Without sync the clock would run ~100 ms/s fast; the resync at the
    // second reading corrects back to real time, so the delta stays well
    // under half a second.
    let delta = after_sync.saturating_sub(before_sync);
    assert!(delta < 500_000);
}

#[test]
fn clock_synchronization_reduces_large_drift_error() {
    // 2 us/s drift, sync every 500 ms
    let mut clock = ClockSim::new(2, 0, 2);

    let before_sync = clock.time_at(300_000);
    let after_sync = clock.time_at(650_000);

    let delta = after_sync.saturating_sub(before_sync);
    assert!(delta < 500_000);
}

#[test]
fn drifted_reading_has_exact_value() {
    // 100 ms gained per second, sync every 500 ms: at 300 ms the clock has
    // gained 30 ms, and the 650 ms reading falls past the interval and
    // resyncs to real time exactly.
    let mut clock = ClockSim::new(100_000, 0, 2);
    assert_eq!(clock.time_at(300_000), 330_000);
    assert_eq!(clock.time_at(650_000), 650_000);
}

#[test]
fn negative_drift_loses_time() {
    // 100 ms lost per second, sync every 10 s: at 1 s the clock shows 0.9 s.
    let mut clock = ClockSim::new(-100_000, 0, 1);
    assert_eq!(clock.time_at(200_000), 180_000);
    assert_eq!(clock.time_at(900_000), 810_000);
}

#[test]
fn readings_within_one_window_never_decrease() {
    // drift 0, sync every second: many readings inside the first window.
    let mut clock = ClockSim::new(0, 0, 1);
    let mut last = clock.time_at(0);
    let mut now_us: u64 = 0;
    for _ in 0..50 {
        now_us += 17_000;
        let t = clock.time_at(now_us);
        assert!(t >= last);
        last = t;
    }
}

#[test]
fn real_time_readings_are_usable() {
    // The wall-clock entry point: two immediate readings of a fast clock.
    let mut clock = ClockSim::new(50, 100, 100);
    let t1 = clock.get_time();
    let t2 = clock.get_time();
    let _ = (t1, t2);
    assert_eq!(clock.get_uncertainty(), 100);
}

#[test]
fn clock_config_defaults() {
    let config = ClockConfig::default();
    assert_eq!(config.drift_rate, DEFAULT_DRIFT_RATE);
    assert_eq!(config.uncertainty_bound, DEFAULT_UNCERTAINTY_BOUND);
    assert_eq!(config.sync_freq, DEFAULT_SYNC_FREQ);
    assert_eq!(config.drift_rate, 50);
    assert_eq!(config.uncertainty_bound, 100);
    assert_eq!(config.sync_freq, 100);
}

#[test]
fn clock_from_config_values() {
    let config = ClockConfig { drift_rate: 25, uncertainty_bound: 50, sync_freq: 200 };
    let mut clock = ClockSim::new(config.drift_rate, config.uncertainty_bound, config.sync_freq);
    let t1 = clock.time_at(0);
    let t2 = clock.time_at(2_000);
    assert!(t2 >= t1);
    assert_eq!(clock.get_uncertainty(), 50);
}
