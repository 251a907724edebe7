//! A simulated synchronized clock with bounded drift and periodic
//! resynchronization.
//!
//! Units: the drift rate is in microseconds gained (or, when negative, lost)
//! per real second; the uncertainty bound is in microseconds; the sync
//! frequency is in hertz, so the resync interval is `1_000_000 / sync_freq`
//! microseconds; readings are logical microseconds.

use vstd::prelude::*;
use vstd::arithmetic::div_mod::lemma_div_is_ordered;
use vstd::arithmetic::div_mod::lemma_div_nonincreasing;
use vstd::arithmetic::div_mod::lemma_hoist_over_denominator;
use vstd::arithmetic::mul::lemma_mul_inequality;
use vstd::arithmetic::mul::lemma_mul_upper_bound;
use std::time::Instant;
use crate::time_source::instant_now;
use crate::time_source::micros_since;

verus! {

/// A clock that diverges from real time at a configured rate and corrects
/// itself whenever a reading finds the resync interval has passed.
pub struct ClockSim {
    /// Reference point on the monotonic process clock; all real times below
    /// are microseconds elapsed since this instant.
    start_instant: Instant,
    /// Logical reading at the moment of the last resync.
    base_offset: u64,
    /// Drift in microseconds per real second; positive runs fast.
    drift_rate: i64,
    /// Synchronization uncertainty, in microseconds either way.
    uncertainty_bound: u64,
    /// Real microseconds between resyncs.
    sync_interval_us: u64,
    /// Real time of the last resync, in microseconds since the start.
    last_sync_us: u64,
}

/// The magnitude of a drift rate, as a mathematical integer.
pub open spec fn abs_drift(drift_rate: i64) -> int {
    if drift_rate >= 0 {
        drift_rate as int
    } else {
        -(drift_rate as int)
    }
}

/// Clamps a mathematical reading into the range of `u64`, as the executable
/// computation does.
pub open spec fn clamp_to_u64(v: int) -> u64 {
    if v < 0 {
        0u64
    } else if v > u64::MAX {
        u64::MAX
    } else {
        v as u64
    }
}

/// The drift accrued over `elapsed` microseconds: the configured rate,
/// prorated over the elapsed fraction of a second, rounded toward zero.
pub open spec fn drift_term(elapsed: u64, drift_rate: i64) -> int {
    if drift_rate >= 0 {
        (elapsed * drift_rate) / 1_000_000
    } else {
        -((elapsed * abs_drift(drift_rate)) / 1_000_000)
    }
}

/// The reading of a clock `elapsed` microseconds after a resync that left its
/// offset at `base`: offset plus real elapsed time plus accrued drift.
pub open spec fn clock_reading(base: u64, elapsed: u64, drift_rate: i64) -> u64 {
    clamp_to_u64(base + elapsed + drift_term(elapsed, drift_rate))
}

impl ClockSim {
    /// Logical reading at the moment of the last resync.
    pub closed spec fn base(&self) -> u64 {
        self.base_offset
    }

    /// Drift in microseconds per real second.
    pub closed spec fn drift(&self) -> i64 {
        self.drift_rate
    }

    /// Real microseconds between resyncs.
    pub closed spec fn interval(&self) -> u64 {
        self.sync_interval_us
    }

    /// Real time of the last resync, microseconds since the start.
    pub closed spec fn last_sync(&self) -> u64 {
        self.last_sync_us
    }

    /// Synchronization uncertainty, in microseconds either way.
    pub closed spec fn uncertainty_spec(&self) -> u64 {
        self.uncertainty_bound
    }

    /// A clock is well formed when its logical offset equals the real elapsed
    /// time of its last resync, which is exactly what a resync establishes.
    pub open spec fn wf(&self) -> bool {
        self.base() == self.last_sync()
    }
}

/// How one reading at real time `now_us` (microseconds since the start) takes
/// a clock from `pre` to `post` and returns `t`. A reading from before the
/// last resync is treated as happening at the resync itself; if the resync
/// interval has passed, the clock first corrects its offset to real time.
pub open spec fn clock_step(pre: ClockSim, now_us: u64, post: ClockSim, t: u64) -> bool {
    let n: u64 = if now_us >= pre.last_sync() {
        now_us
    } else {
        pre.last_sync()
    };
    &&& post.drift() == pre.drift()
    &&& post.interval() == pre.interval()
    &&& post.uncertainty_spec() == pre.uncertainty_spec()
    &&& if n - pre.last_sync() >= pre.interval() {
            &&& post.base() == n
            &&& post.last_sync() == n
            &&& t == n
        } else {
            &&& post.base() == pre.base()
            &&& post.last_sync() == pre.last_sync()
            &&& t == clock_reading(pre.base(), (n - pre.last_sync()) as u64, pre.drift())
        }
}

impl ClockSim {
    /// Creates a clock with the given drift rate (microseconds per second),
    /// uncertainty bound (microseconds) and sync frequency (hertz). A
    /// non-positive sync frequency is a configuration error and is ruled out.
    pub fn new(drift: i64, epsilon: u64, sync_freq: u64) -> (c: ClockSim)
        requires
            0 < sync_freq,
        ensures
            c.wf(),
            c.base() == 0,
            c.last_sync() == 0,
            c.drift() == drift,
            c.uncertainty_spec() == epsilon,
            c.interval() == 1_000_000int / sync_freq as int,
    {
        let interval = 1_000_000u64 / sync_freq;
        ClockSim {
            start_instant: instant_now(),
            base_offset: 0,
            drift_rate: drift,
            uncertainty_bound: epsilon,
            sync_interval_us: interval,
            last_sync_us: 0,
        }
    }

    /// A resync: the offset becomes the undrifted real elapsed time and the
    /// resync moment is remembered.
    fn synchronize(&mut self, now_us: u64)
        ensures
            final(self).base() == now_us,
            final(self).last_sync() == now_us,
            final(self).drift() == old(self).drift(),
            final(self).interval() == old(self).interval(),
            final(self).uncertainty_spec() == old(self).uncertainty_spec(),
    {
        self.base_offset = now_us;
        self.last_sync_us = now_us;
    }

    /// The reading the clock gives at real time `now_us` microseconds since
    /// its start, resynchronizing first if the interval has passed. This is
    /// the whole logic of a reading with the time source made explicit.
    pub fn time_at(&mut self, now_us: u64) -> (t: u64)
        requires
            old(self).wf(),
        ensures
            final(self).wf(),
            clock_step(*old(self), now_us, *final(self), t),
    {
        let now = if now_us >= self.last_sync_us {
            now_us
        } else {
            self.last_sync_us
        };
        if now - self.last_sync_us >= self.sync_interval_us {
            self.synchronize(now);
        }
        let elapsed = now - self.last_sync_us;
        compute_reading(self.base_offset, elapsed, self.drift_rate)
    }

    /// Returns the current logical time in microseconds, reading the process
    /// clock for the real elapsed time. Every reading is one `clock_step` at
    /// some real time at or after the last resync.
    pub fn get_time(&mut self) -> (t: u64)
        requires
            old(self).wf(),
        ensures
            final(self).wf(),
            exists|now_us: u64| clock_step(*old(self), now_us, *final(self), t),
    {
        let now_us = micros_since(&self.start_instant);
        let t = self.time_at(now_us);
        proof {
            assert(clock_step(*old(self), now_us, *self, t));
        }
        t
    }

    /// Returns the configured uncertainty bound: the true time lies within
    /// this many microseconds of the reading, either way.
    pub fn get_uncertainty(&self) -> (eps: u64)
        ensures
            eps == self.uncertainty_spec(),
    {
        self.uncertainty_bound
    }
}

/// Computes `clock_reading(base, elapsed, drift)` in bounded arithmetic.
fn compute_reading(base: u64, elapsed: u64, drift: i64) -> (t: u64)
    ensures
        t == clock_reading(base, elapsed, drift),
{
    let undrifted: u128 = base as u128 + elapsed as u128;
    if drift >= 0 {
        proof {
            lemma_mul_upper_bound(elapsed as int, u64::MAX as int, drift as int, i64::MAX as int);
            lemma_div_nonincreasing(elapsed as int * drift as int, 1_000_000int);
        }
        let extra: u128 = (elapsed as u128 * drift as u128) / 1_000_000;
        let total: u128 = undrifted + extra;
        if total > u64::MAX as u128 {
            u64::MAX
        } else {
            total as u64
        }
    } else {
        let magnitude: u64 = if drift == i64::MIN {
            9_223_372_036_854_775_808u64
        } else {
            (-drift) as u64
        };
        proof {
            lemma_mul_upper_bound(elapsed as int, u64::MAX as int, magnitude as int, u64::MAX as int);
        }
        let loss: u128 = (elapsed as u128 * magnitude as u128) / 1_000_000;
        if loss >= undrifted {
            0
        } else {
            let total: u128 = undrifted - loss;
            if total > u64::MAX as u128 {
                u64::MAX
            } else {
                total as u64
            }
        }
    }
}

/// Zero drift tracks real time exactly: within a sync window the reading at
/// `elapsed` microseconds past the last resync is the real instant itself.
pub proof fn lemma_zero_drift_tracks_real_time(base: u64, elapsed: u64)
    requires
        base + elapsed <= u64::MAX,
    ensures
        clock_reading(base, elapsed, 0) == base + elapsed,
{
}

/// Within one sync window the reading never decreases as real time advances,
/// provided the clock does not lose more than a real second per second
/// (`drift_rate >= -1_000_000`; below that the drift term can outrun real
/// time and the formula is not monotonic). With zero drift and no overflow
/// the reading strictly increases with real time.
pub proof fn lemma_reading_monotonic(base: u64, e1: u64, e2: u64, drift: i64)
    requires
        e1 <= e2,
        -1_000_000 <= drift,
    ensures
        clock_reading(base, e1, drift) <= clock_reading(base, e2, drift),
        drift == 0 && e1 < e2 && base + e2 <= u64::MAX ==> clock_reading(base, e1, drift)
            < clock_reading(base, e2, drift),
{
    let m = 1_000_000int;
    if drift >= 0 {
        assert(e1 as int * drift as int <= e2 as int * drift as int) by {
            lemma_mul_inequality(e1 as int, e2 as int, drift as int);
        }
        lemma_div_is_ordered(e1 as int * drift as int, e2 as int * drift as int, m);
    } else {
        let d = abs_drift(drift);
        assert(0 < d <= m);
        assert(e2 as int * d == e1 as int * d + (e2 - e1) * d) by (nonlinear_arith);
        assert((e2 - e1) * d <= (e2 - e1) * m) by {
            lemma_mul_inequality(d, m, e2 - e1);
            assert((e2 - e1) * d == d * (e2 - e1)) by (nonlinear_arith);
            assert((e2 - e1) * m == m * (e2 - e1)) by (nonlinear_arith);
        }
        assert((e2 as int * d) / m <= (e1 as int * d + (e2 - e1) * m) / m) by {
            lemma_div_is_ordered(e2 as int * d, e1 as int * d + (e2 - e1) * m, m);
        }
        assert((e1 as int * d + (e2 - e1) * m) / m == (e1 as int * d) / m + (e2 - e1)) by {
            lemma_hoist_over_denominator(e1 as int * d, e2 - e1, m as nat);
        }
    }
}

/// Repeated readings within one sync window never decrease as real time
/// advances, provided the clock does not lose more than a real second per
/// second; with zero drift they follow real time exactly, so they increase
/// strictly with it. This lifts `lemma_reading_monotonic` to two successive
/// readings that both fall short of the resync interval.
pub proof fn lemma_readings_monotonic_within_window(
    c0: ClockSim,
    n1: u64,
    c1: ClockSim,
    t1: u64,
    n2: u64,
    c2: ClockSim,
    t2: u64,
)
    requires
        c0.wf(),
        -1_000_000 <= c0.drift(),
        clock_step(c0, n1, c1, t1),
        clock_step(c1, n2, c2, t2),
        n1 <= n2,
        c0.last_sync() <= n2,
        n2 - c0.last_sync() < c0.interval(),
    ensures
        t1 <= t2,
        c0.drift() == 0 && c0.last_sync() <= n1 < n2 && n2 <= u64::MAX ==> t1 < t2,
{
    let l = c0.last_sync();
    let e1: u64 = if n1 >= l {
        (n1 - l) as u64
    } else {
        0u64
    };
    let e2: u64 = (n2 - l) as u64;
    lemma_reading_monotonic(c0.base(), e1, e2, c0.drift());
}

/// Immediately after a resync the reading equals the undrifted real elapsed
/// time, so with zero drift a resync leaves the value the clock would have
/// shown anyway: resynchronization is idempotent on an undrifted clock.
pub proof fn lemma_resync_idempotent_without_drift(c: ClockSim, n: u64)
    requires
        c.wf(),
        c.last_sync() <= n,
    ensures
        clock_reading(c.base(), (n - c.last_sync()) as u64, 0) == n,
{
}

} // verus!
