//! The simulator's time axis.
//!
//! Simulated time is a count of microseconds on a continuous (TAI) axis,
//! the representation the propagation stack uses natively.  A run's clock
//! starts at the TLE epoch and advances by a fixed, non-negative number of
//! microseconds per step, with saturating 64-bit arithmetic, so simulated
//! time is total and never decreases.  The frame-transform horizon and its
//! clamp rule also live here: rotation times past the horizon are pinned to
//! it, never passed through.

use vstd::prelude::*;

verus! {

/// Largest timestamp, in microseconds on the simulation time axis, for which
/// Earth-orientation data are taken as available.  Frame-transform times past
/// this instant are clamped to it by `clamp_transform_time_us`.
pub const FRAME_TRANSFORM_HORIZON_US: i64 = 1767250888000 * 1000;

/// Pin a frame-transform timestamp to the Earth-orientation horizon: times
/// before the horizon pass through unchanged, later ones are replaced by the
/// horizon itself, so no rotation is ever requested past it.
pub fn clamp_transform_time_us(t_us: i64) -> (r: i64)
    ensures
        t_us < FRAME_TRANSFORM_HORIZON_US ==> r == t_us,
        t_us >= FRAME_TRANSFORM_HORIZON_US ==> r == FRAME_TRANSFORM_HORIZON_US,
        r <= FRAME_TRANSFORM_HORIZON_US,
        r <= t_us,
{
    if t_us < FRAME_TRANSFORM_HORIZON_US {
        t_us
    } else {
        FRAME_TRANSFORM_HORIZON_US
    }
}

/// A run's clock: the epoch it started from, the current simulated instant,
/// and the per-step increment, all in microseconds on the same axis.
#[derive(Clone, Copy, PartialEq, Eq, Structural, Debug)]
pub struct SimClock {
    /// The TLE epoch the run was seeded with.
    pub epoch_us: i64,
    /// The instant the next step computes for.
    pub now_us: i64,
    /// The configured step interval; non-negative.
    pub step_us: i64,
}

impl SimClock {
    /// The clock never runs backwards past its epoch and its step never
    /// subtracts time.
    pub open spec fn wf(self) -> bool {
        0 <= self.step_us && self.epoch_us <= self.now_us
    }

    /// Elapsed simulated time since the epoch, as the saturating 64-bit
    /// difference the telemetry clock reports.
    pub open spec fn spec_elapsed_us(self) -> int {
        if self.now_us - self.epoch_us <= i64::MAX {
            self.now_us - self.epoch_us
        } else {
            i64::MAX as int
        }
    }

    /// Seed a clock at its epoch.
    pub fn new(epoch_us: i64, step_us: i64) -> (c: Self)
        requires
            0 <= step_us,
        ensures
            c.wf(),
            c.epoch_us == epoch_us,
            c.now_us == epoch_us,
            c.step_us == step_us,
            c.spec_elapsed_us() == 0,
    {
        SimClock { epoch_us, now_us: epoch_us, step_us }
    }

    /// The instant the next step computes for.
    pub fn now_us(&self) -> (r: i64)
        ensures
            r == self.now_us,
    {
        self.now_us
    }

    /// Elapsed microseconds since the epoch, saturating at the top of the
    /// 64-bit range exactly as the run's telemetry difference does.
    pub fn elapsed_us(&self) -> (r: i64)
        requires
            self.wf(),
        ensures
            r == self.spec_elapsed_us(),
            r >= 0,
    {
        if self.epoch_us >= 0 {
            self.now_us - self.epoch_us
        } else {
            let limit: i64 = i64::MAX + self.epoch_us;
            if self.now_us <= limit {
                self.now_us - self.epoch_us
            } else {
                i64::MAX
            }
        }
    }

    /// Advance the clock by one step interval, saturating at the top of the
    /// 64-bit range.  Simulated time never decreases, and away from
    /// saturation the elapsed time grows by exactly one step interval.
    pub fn advance(&mut self)
        requires
            old(self).wf(),
        ensures
            final(self).wf(),
            final(self).epoch_us == old(self).epoch_us,
            final(self).step_us == old(self).step_us,
            old(self).now_us + old(self).step_us <= i64::MAX
                ==> final(self).now_us == old(self).now_us + old(self).step_us,
            old(self).now_us + old(self).step_us > i64::MAX ==> final(self).now_us == i64::MAX,
            final(self).now_us >= old(self).now_us,
            final(self).spec_elapsed_us() >= old(self).spec_elapsed_us(),
    {
        if self.now_us <= i64::MAX - self.step_us {
            self.now_us = self.now_us + self.step_us;
        } else {
            self.now_us = i64::MAX;
        }
    }
}

} // verus!
