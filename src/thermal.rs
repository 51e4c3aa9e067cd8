//! Exhaust gas temperature offsets contributed by loads on the running unit.
use vstd::prelude::*;

use crate::units::MICRO_PER_DEGREE;

verus! {

/// Time the generator load takes to reach its full temperature offset.
pub const SECONDS_TO_REACH_TARGET: u64 = 10;

/// [`SECONDS_TO_REACH_TARGET`] in milliseconds.
pub const GEN_RAMP_MS: u64 = SECONDS_TO_REACH_TARGET * 1000;

/// The generator-load offset rate for a drawn number, in millionths of a
/// degree per second: `(10 + draw % 6) / 10` degrees per second, so 10 to 15
/// degrees at full ramp.
pub open spec fn gen_rate_for_draw(draw: u64) -> i64 {
    ((10 + draw % 6) * 100_000) as i64
}

/// Temperature offset of the generator load: it ramps linearly over
/// [`GEN_RAMP_MS`] while the generator is in use and back down when not.
pub struct ApuGenUsageEgtDelta {
    /// Time towards the ramp's end, at most [`GEN_RAMP_MS`].
    pub time_ms: u64,
    /// Offset gained per second of ramp, in millionths of a degree.
    pub base_egt_delta_per_second: i64,
}

impl ApuGenUsageEgtDelta {
    pub open spec fn wf(&self) -> bool {
        &&& self.time_ms <= GEN_RAMP_MS
        &&& 1_000_000 <= self.base_egt_delta_per_second <= 1_500_000
    }

    /// The ramp after `elapsed_ms`: towards its end while the generator is
    /// in use, back towards its start otherwise.
    pub open spec fn stepped(self, elapsed_ms: u64, apu_gen_is_used: bool) -> ApuGenUsageEgtDelta {
        let time: u64 = if apu_gen_is_used {
            if self.time_ms + elapsed_ms >= GEN_RAMP_MS {
                GEN_RAMP_MS
            } else {
                (self.time_ms + elapsed_ms) as u64
            }
        } else if self.time_ms <= elapsed_ms {
            0
        } else {
            (self.time_ms - elapsed_ms) as u64
        };
        ApuGenUsageEgtDelta { time_ms: time, ..self }
    }

    /// The offset, in millionths of a degree.
    pub open spec fn delta(&self) -> int {
        self.time_ms * self.base_egt_delta_per_second / 1000
    }

    /// A ramp at its start, with its rate picked by `draw`.
    pub fn new(draw: u64) -> (r: ApuGenUsageEgtDelta)
        ensures
            r.wf(),
            r.time_ms == 0,
            r.base_egt_delta_per_second == gen_rate_for_draw(draw),
    {
        let rate: i64 = ((10 + draw % 6) * 100_000) as i64;
        ApuGenUsageEgtDelta { time_ms: 0, base_egt_delta_per_second: rate }
    }

    /// Advances the ramp by `elapsed_ms` towards its end while the generator
    /// is in use, and back towards its start otherwise.
    pub fn update(&mut self, elapsed_ms: u64, apu_gen_is_used: bool)
        requires
            old(self).wf(),
        ensures
            final(self).wf(),
            *final(self) == old(self).stepped(elapsed_ms, apu_gen_is_used),
    {
        if apu_gen_is_used {
            if elapsed_ms >= GEN_RAMP_MS - self.time_ms {
                self.time_ms = GEN_RAMP_MS;
            } else {
                self.time_ms = self.time_ms + elapsed_ms;
            }
        } else if self.time_ms <= elapsed_ms {
            self.time_ms = 0;
        } else {
            self.time_ms = self.time_ms - elapsed_ms;
        }
    }

    /// The offset, in millionths of a degree.
    pub fn egt_delta(&self) -> (r: i64)
        requires
            self.wf(),
        ensures
            r == self.delta(),
            0 <= r <= 15 * MICRO_PER_DEGREE,
    {
        assert(0 <= self.time_ms * self.base_egt_delta_per_second <= 10_000 * 1_500_000) by (nonlinear_arith)
            requires
                self.time_ms <= 10_000,
                0 <= self.base_egt_delta_per_second <= 1_500_000,
        ;
        self.time_ms as i64 * self.base_egt_delta_per_second / 1000
    }
}

/// The bleed-air offset's ceiling for a drawn number, in millionths of a
/// degree: 90 degrees times `0.95 + (draw % 101) / 1000`.
pub open spec fn bleed_max_for_draw(draw: u64) -> i64 {
    (90 * (950 + draw % 101) * 1000) as i64
}

/// `v` clamped to `[lo, hi]`.
pub open spec fn clamp_spec(v: int, lo: int, hi: int) -> int {
    if v < lo {
        lo
    } else if v > hi {
        hi
    } else {
        v
    }
}

/// The signed change over `elapsed_ms` at `rate` (millionths of a degree per
/// second), rounded towards zero.
pub open spec fn scaled_change(rate: i64, elapsed_ms: u64) -> int {
    if rate >= 0 {
        rate * elapsed_ms / 1000
    } else {
        -((-rate) * elapsed_ms / 1000)
    }
}

/// Temperature offset of bleed air use: it moves towards its ceiling while
/// bleed air is used and towards zero otherwise, at a rate that depends on the
/// remaining distance.
pub struct BleedAirUsageEgtDelta {
    pub current: i64,
    pub target: i64,
    pub max: i64,
    pub min: i64,
}

impl BleedAirUsageEgtDelta {
    pub open spec fn wf(&self) -> bool {
        &&& self.min == 0
        &&& 85_500_000 <= self.max <= 94_500_000
        &&& self.min <= self.current <= self.max
    }

    /// The target the offset moves to for the given use of bleed air.
    pub open spec fn target_for(&self, apu_bleed_is_used: bool) -> i64 {
        if apu_bleed_is_used {
            self.max
        } else {
            self.min
        }
    }

    /// The offset after moving by `scaled_change(rate, elapsed_ms)` towards
    /// `target`, kept within `[min, max]`.
    pub open spec fn moved(&self, target: i64, rate: i64, elapsed_ms: u64) -> int {
        let c = scaled_change(rate, elapsed_ms);
        let v = if self.current == target {
            self.current as int
        } else if self.current > target {
            self.current - c
        } else {
            self.current + c
        };
        clamp_spec(v, self.min as int, self.max as int)
    }

    /// The offset after one update: its target set by the use of bleed air,
    /// and moved towards it at `rate`.
    pub open spec fn stepped(self, elapsed_ms: u64, apu_bleed_is_used: bool, rate: i64) -> BleedAirUsageEgtDelta {
        let target = self.target_for(apu_bleed_is_used);
        BleedAirUsageEgtDelta { current: self.moved(target, rate, elapsed_ms) as i64, target, ..self }
    }

    /// No offset yet, with a ceiling picked by `draw`.
    pub fn new(draw: u64) -> (r: BleedAirUsageEgtDelta)
        ensures
            r.wf(),
            r.current == 0,
            r.target == 0,
            r.max == bleed_max_for_draw(draw),
    {
        let max: i64 = (90 * (950 + draw % 101) * 1000) as i64;
        BleedAirUsageEgtDelta { current: 0, target: 0, max, min: 0 }
    }

    /// Distance between the offset and its target for the given use of bleed
    /// air: the point at which the rate curve is read.
    pub fn distance(&self, apu_bleed_is_used: bool) -> (r: u64)
        requires
            self.wf(),
        ensures
            r == if self.current >= self.target_for(apu_bleed_is_used) {
                self.current - self.target_for(apu_bleed_is_used)
            } else {
                self.target_for(apu_bleed_is_used) - self.current
            },
    {
        let target = if apu_bleed_is_used { self.max } else { self.min };
        if self.current >= target {
            (self.current - target) as u64
        } else {
            (target - self.current) as u64
        }
    }

    /// Moves the offset towards its target at `rate` (millionths of a degree
    /// per second, read from the rate curve at [`Self::distance`]).
    pub fn update(&mut self, elapsed_ms: u64, apu_bleed_is_used: bool, rate: i64)
        requires
            old(self).wf(),
        ensures
            final(self).wf(),
            *final(self) == old(self).stepped(elapsed_ms, apu_bleed_is_used, rate),
    {
        self.target = if apu_bleed_is_used { self.max } else { self.min };
        let magnitude: u128 = if rate >= 0 { rate as u128 } else { (0 - rate as i128) as u128 };
        assert(magnitude * elapsed_ms <= 0x8000_0000_0000_0000 * 0xffff_ffff_ffff_ffff) by (nonlinear_arith)
            requires
                magnitude <= 0x8000_0000_0000_0000,
                elapsed_ms <= 0xffff_ffff_ffff_ffff,
        ;
        let step: u128 = magnitude * elapsed_ms as u128 / 1000;
        let change: i128 = if rate >= 0 { step as i128 } else { 0 - step as i128 };
        let moved: i128 = if self.current == self.target {
            self.current as i128
        } else if self.current > self.target {
            self.current as i128 - change
        } else {
            self.current as i128 + change
        };
        self.current = if moved < self.min as i128 {
            self.min
        } else if moved > self.max as i128 {
            self.max
        } else {
            moved as i64
        };
    }

    /// The offset, in millionths of a degree.
    pub fn egt_delta(&self) -> (r: i64)
        requires
            self.wf(),
        ensures
            r == self.current,
    {
        self.current
    }
}

/// At a non-negative rate the bleed-air offset moves towards its target and
/// never past it: up towards its ceiling while bleed air is used, down
/// towards zero otherwise.
pub proof fn lemma_bleed_air_moves_towards_target(
    b: BleedAirUsageEgtDelta,
    elapsed_ms: u64,
    apu_bleed_is_used: bool,
    rate: i64,
)
    requires
        b.wf(),
        rate >= 0,
    ensures
        apu_bleed_is_used ==> b.current <= b.stepped(elapsed_ms, apu_bleed_is_used, rate).current <= b.max,
        !apu_bleed_is_used ==> 0 <= b.stepped(elapsed_ms, apu_bleed_is_used, rate).current <= b.current,
{
    assert(rate * elapsed_ms >= 0) by (nonlinear_arith)
        requires
            rate >= 0,
            elapsed_ms >= 0,
    ;
    assert(scaled_change(rate, elapsed_ms) >= 0);
}

} // verus!
