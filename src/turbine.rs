//! The turbine's four states and the tick that moves from one to the next.
//!
//! A tick consumes the current state and returns its successor. The
//! unit's calibration curves are read by the host at the points the state
//! gives ([`Aps3200Turbine::speed_curve_point`],
//! [`Aps3200Turbine::bleed_air_curve_point`]) and handed in as
//! [`CurveSamples`]; the random numbers that fix a new running state's
//! constants come in as [`RandomDraws`].
use vstd::prelude::*;

use crate::ambient::towards_target;
use crate::ambient::APU_AMBIENT_COEFFICIENT;
use crate::ambient::calculate_towards_ambient_egt;
use crate::ambient::lemma_towards_target_between;
use crate::thermal::ApuGenUsageEgtDelta;
use crate::thermal::BleedAirUsageEgtDelta;
use crate::thermal::bleed_max_for_draw;
use crate::thermal::gen_rate_for_draw;
use crate::units::FULL_N;
use crate::units::TEMPERATURE_LIMIT;
use crate::units::add_ms;
use crate::units::add_ms_spec;
use crate::units::clamp_n;
use crate::units::clamp_n_spec;
use crate::units::temperature_in_range;

verus! {

/// Time after a start request before ignition, in milliseconds.
pub const START_IGNITION_AFTER_MS: u64 = 1500;

/// Past this time since ignition the starting speed curve is no longer
/// increasing, so it is read here at most.
pub const STARTING_TIME_LIMIT_MS: u64 = 45_120;

/// Past this time since the stop began the stopping speed curve is no longer
/// decreasing, so it is read here at most.
pub const STOPPING_TIME_LIMIT_MS: u64 = 49_411;

/// Which of its four states the turbine is in.
#[derive(PartialEq, Eq, Structural, Clone, Copy, Debug)]
pub enum TurbineState {
    Shutdown,
    Starting,
    Running,
    Stopping,
}

/// What the host supplies each tick.
#[derive(Clone, Copy, Debug)]
pub struct Tick {
    pub elapsed_ms: u64,
    /// Ambient temperature, in millionths of a degree Celsius.
    pub ambient: i64,
    /// The controller asks for a start.
    pub should_start: bool,
    /// The controller asks for a stop; it takes precedence over progress.
    pub should_stop: bool,
    pub apu_bleed_is_used: bool,
    pub apu_gen_is_used: bool,
}

/// Values of the calibration curves for one tick.
#[derive(Clone, Copy, Debug)]
pub struct CurveSamples {
    /// The speed curve at [`Aps3200Turbine::speed_curve_point`], in millionths
    /// of a percent, before clamping to [0%, 100%].
    pub n: i64,
    /// Starting: the EGT curve at the new speed. Stopping: the EGT drop curve
    /// at the new speed. In millionths of a degree.
    pub egt: i64,
    /// Running: the bleed-air offset's rate curve at
    /// [`Aps3200Turbine::bleed_air_curve_point`], in millionths of a degree per
    /// second.
    pub bleed_air_rate: i64,
}

/// Random numbers that fix the constants of a new running state.
#[derive(Clone, Copy, Debug)]
pub struct RandomDraws {
    pub base_egt: u64,
    pub bleed_air: u64,
    pub generator_load: u64,
}

impl Tick {
    pub open spec fn wf(&self) -> bool {
        temperature_in_range(self.ambient)
    }
}

impl CurveSamples {
    pub open spec fn wf(&self) -> bool {
        temperature_in_range(self.egt)
    }
}

/// The base EGT of a running state for a drawn number: 340 to 350 degrees.
pub open spec fn base_egt_for_draw(draw: u64) -> i64 {
    ((340 + draw % 11) * 1_000_000) as i64
}

/// The turbine at rest; its EGT approaches ambient.
pub struct ShutdownAps3200Turbine {
    pub egt: i64,
}

/// The turbine spinning up after a start request.
pub struct Starting {
    pub since_ms: u64,
    pub n: u64,
    pub egt: i64,
    /// Set while the EGT curve has not yet exceeded the EGT that approaches
    /// ambient; cleared for good once it has.
    pub ignore_calculated_egt: bool,
}

/// The turbine at full speed.
pub struct Running {
    pub egt: i64,
    pub base_egt: i64,
    /// Deviation from the base EGT on entry, reduced by one degree per second.
    pub base_egt_deviation: i64,
    pub bleed_air_usage: BleedAirUsageEgtDelta,
    pub apu_gen_usage: ApuGenUsageEgtDelta,
}

/// The turbine spinning down after a stop request.
pub struct Stopping {
    pub since_ms: u64,
    /// EGT on entry, to which the EGT drop curve is added.
    pub base_temperature: i64,
    pub n: u64,
    pub egt: i64,
}

/// The turbine in one of its four states.
pub enum Aps3200Turbine {
    Shutdown(ShutdownAps3200Turbine),
    Starting(Starting),
    Running(Running),
    Stopping(Stopping),
}

/// A fresh start, with the EGT it inherits.
pub open spec fn starting_entry(egt: i64) -> Starting {
    Starting { since_ms: 0, n: 0, egt, ignore_calculated_egt: true }
}

/// A fresh running state: its base EGT, deviation and load offsets are new.
pub open spec fn running_entry(egt: i64, draws: RandomDraws) -> Running {
    let base = base_egt_for_draw(draws.base_egt);
    Running {
        egt,
        base_egt: base,
        base_egt_deviation: (egt - base) as i64,
        bleed_air_usage: BleedAirUsageEgtDelta {
            current: 0,
            target: 0,
            max: bleed_max_for_draw(draws.bleed_air),
            min: 0,
        },
        apu_gen_usage: ApuGenUsageEgtDelta {
            time_ms: 0,
            base_egt_delta_per_second: gen_rate_for_draw(draws.generator_load),
        },
    }
}

/// A fresh stop, from the EGT and speed at the stop request.
pub open spec fn stopping_entry(egt: i64, n: u64) -> Stopping {
    Stopping { since_ms: 0, base_temperature: egt, n, egt }
}

/// The point (milliseconds since ignition) at which the starting speed curve
/// is read, `since_ms` after the start request; none before ignition.
pub open spec fn starting_speed_point(since_ms: u64) -> Option<u64> {
    if since_ms > START_IGNITION_AFTER_MS {
        let t = (since_ms - START_IGNITION_AFTER_MS) as u64;
        Some(if t > STARTING_TIME_LIMIT_MS { STARTING_TIME_LIMIT_MS } else { t })
    } else {
        None
    }
}

/// The point (milliseconds since the stop request) at which the stopping
/// speed curve is read.
pub open spec fn stopping_speed_point(since_ms: u64) -> u64 {
    if since_ms > STOPPING_TIME_LIMIT_MS {
        STOPPING_TIME_LIMIT_MS
    } else {
        since_ms
    }
}

/// The EGT approaching ambient over the tick.
pub open spec fn egt_towards_ambient(egt: i64, tick: Tick) -> i64 {
    towards_target(egt, tick.ambient, APU_AMBIENT_COEFFICIENT, tick.elapsed_ms) as i64
}

/// Starting, after the tick: time advances, speed follows the curve from
/// ignition on, and the EGT follows its curve once that has exceeded the EGT
/// approaching ambient.
pub open spec fn starting_step(s: Starting, tick: Tick, samples: CurveSamples) -> Starting {
    let since = add_ms_spec(s.since_ms, tick.elapsed_ms);
    let n = if starting_speed_point(since) is Some { clamp_n_spec(samples.n) } else { 0 };
    let towards = egt_towards_ambient(s.egt, tick);
    let ignore = s.ignore_calculated_egt && !(samples.egt > towards);
    Starting { since_ms: since, n, egt: if ignore { towards } else { samples.egt }, ignore_calculated_egt: ignore }
}

/// The deviation after `elapsed_ms`: one degree less per second, and never
/// below zero.
pub open spec fn reduced_deviation(deviation: i64, elapsed_ms: u64) -> i64 {
    if deviation <= elapsed_ms * 1000 {
        0
    } else {
        (deviation - elapsed_ms * 1000) as i64
    }
}

/// Running, after the tick: EGT is the base plus the remaining deviation and
/// the two load offsets.
pub open spec fn running_step(r: Running, tick: Tick, samples: CurveSamples) -> Running {
    let deviation = reduced_deviation(r.base_egt_deviation, tick.elapsed_ms);
    let gen = r.apu_gen_usage.stepped(tick.elapsed_ms, tick.apu_gen_is_used);
    let bleed = r.bleed_air_usage.stepped(tick.elapsed_ms, tick.apu_bleed_is_used, samples.bleed_air_rate);
    Running {
        egt: (r.base_egt + deviation + gen.delta() + bleed.current) as i64,
        base_egt_deviation: deviation,
        bleed_air_usage: bleed,
        apu_gen_usage: gen,
        ..r
    }
}

/// Stopping, after the tick: time advances, speed follows the curve and the
/// EGT is the entry EGT plus the drop curve.
pub open spec fn stopping_step(s: Stopping, tick: Tick, samples: CurveSamples) -> Stopping {
    Stopping {
        since_ms: add_ms_spec(s.since_ms, tick.elapsed_ms),
        n: clamp_n_spec(samples.n),
        egt: (s.base_temperature + samples.egt) as i64,
        ..s
    }
}

impl Aps3200Turbine {
    pub open spec fn state_spec(&self) -> TurbineState {
        match self {
            Aps3200Turbine::Shutdown(_) => TurbineState::Shutdown,
            Aps3200Turbine::Starting(_) => TurbineState::Starting,
            Aps3200Turbine::Running(_) => TurbineState::Running,
            Aps3200Turbine::Stopping(_) => TurbineState::Stopping,
        }
    }

    pub open spec fn n_spec(&self) -> u64 {
        match self {
            Aps3200Turbine::Shutdown(_) => 0,
            Aps3200Turbine::Starting(s) => s.n,
            Aps3200Turbine::Running(_) => FULL_N,
            Aps3200Turbine::Stopping(s) => s.n,
        }
    }

    pub open spec fn egt_spec(&self) -> i64 {
        match self {
            Aps3200Turbine::Shutdown(s) => s.egt,
            Aps3200Turbine::Starting(s) => s.egt,
            Aps3200Turbine::Running(r) => r.egt,
            Aps3200Turbine::Stopping(s) => s.egt,
        }
    }

    /// The structure every state keeps: speed within [0%, 100%] and zero
    /// before ignition, and a running state's constants within their ranges.
    pub open spec fn wf(&self) -> bool {
        match self {
            Aps3200Turbine::Shutdown(_) => true,
            Aps3200Turbine::Starting(s) => {
                &&& s.n <= FULL_N
                &&& s.since_ms <= START_IGNITION_AFTER_MS ==> s.n == 0
            },
            Aps3200Turbine::Running(r) => {
                &&& r.bleed_air_usage.wf()
                &&& r.apu_gen_usage.wf()
                &&& 340_000_000 <= r.base_egt <= 350_000_000
            },
            Aps3200Turbine::Stopping(s) => s.n <= FULL_N,
        }
    }

    /// The temperatures a tick starts from are within
    /// [`TEMPERATURE_LIMIT`], so that the tick's sums fit.
    pub open spec fn temperatures_in_range(&self) -> bool {
        match self {
            Aps3200Turbine::Shutdown(s) => temperature_in_range(s.egt),
            Aps3200Turbine::Starting(s) => temperature_in_range(s.egt),
            Aps3200Turbine::Running(r) => {
                &&& temperature_in_range(r.egt)
                &&& temperature_in_range(r.base_egt_deviation)
            },
            Aps3200Turbine::Stopping(s) => {
                &&& temperature_in_range(s.egt)
                &&& temperature_in_range(s.base_temperature)
            },
        }
    }

    /// The state after one tick.
    pub open spec fn next(self, tick: Tick, samples: CurveSamples, draws: RandomDraws) -> Aps3200Turbine {
        match self {
            Aps3200Turbine::Shutdown(s) => {
                let egt = egt_towards_ambient(s.egt, tick);
                if tick.should_start {
                    Aps3200Turbine::Starting(starting_entry(egt))
                } else {
                    Aps3200Turbine::Shutdown(ShutdownAps3200Turbine { egt })
                }
            },
            Aps3200Turbine::Starting(s) => {
                let s2 = starting_step(s, tick, samples);
                if tick.should_stop {
                    Aps3200Turbine::Stopping(stopping_entry(s2.egt, s2.n))
                } else if s2.n == FULL_N {
                    Aps3200Turbine::Running(running_entry(s2.egt, draws))
                } else {
                    Aps3200Turbine::Starting(s2)
                }
            },
            Aps3200Turbine::Running(r) => {
                let r2 = running_step(r, tick, samples);
                if tick.should_stop {
                    Aps3200Turbine::Stopping(stopping_entry(r2.egt, FULL_N))
                } else {
                    Aps3200Turbine::Running(r2)
                }
            },
            Aps3200Turbine::Stopping(s) => {
                let s2 = stopping_step(s, tick, samples);
                if s2.n == 0 {
                    Aps3200Turbine::Shutdown(ShutdownAps3200Turbine { egt: s2.egt })
                } else {
                    Aps3200Turbine::Stopping(s2)
                }
            },
        }
    }

    /// The point at which the host reads the speed curve for a tick of
    /// `elapsed_ms`: milliseconds since ignition when starting, since the stop
    /// request when stopping; none in the other states or before ignition.
    pub open spec fn speed_curve_point_spec(&self, elapsed_ms: u64) -> Option<u64> {
        match self {
            Aps3200Turbine::Starting(s) => starting_speed_point(add_ms_spec(s.since_ms, elapsed_ms)),
            Aps3200Turbine::Stopping(s) => Some(stopping_speed_point(add_ms_spec(s.since_ms, elapsed_ms))),
            _ => None,
        }
    }
}


impl ShutdownAps3200Turbine {
    /// A turbine at rest at zero degrees.
    pub fn new() -> (r: ShutdownAps3200Turbine)
        ensures
            r.egt == 0,
    {
        ShutdownAps3200Turbine { egt: 0 }
    }

    fn new_with_egt(egt: i64) -> (r: ShutdownAps3200Turbine)
        ensures
            r.egt == egt,
    {
        ShutdownAps3200Turbine { egt }
    }
}

impl Starting {
    fn new(egt: i64) -> (r: Starting)
        ensures
            r == starting_entry(egt),
    {
        Starting { since_ms: 0, n: 0, egt, ignore_calculated_egt: true }
    }

    /// The speed at `since_ms`: the clamped curve sample from ignition on,
    /// zero before.
    fn calculate_n(since_ms: u64, sample: i64) -> (r: u64)
        ensures
            r == if starting_speed_point(since_ms) is Some { clamp_n_spec(sample) } else { 0 },
    {
        if since_ms > START_IGNITION_AFTER_MS {
            clamp_n(sample)
        } else {
            0
        }
    }

    /// The EGT after the tick, and the latch that keeps the EGT approaching
    /// ambient until the curve exceeds it.
    fn calculate_egt(&mut self, tick: &Tick, sample: i64) -> (r: i64)
        requires
            temperature_in_range(old(self).egt),
            tick.wf(),
            temperature_in_range(sample),
        ensures
            final(self).ignore_calculated_egt == (old(self).ignore_calculated_egt && !(sample > egt_towards_ambient(old(self).egt, *tick))),
            r == if final(self).ignore_calculated_egt { egt_towards_ambient(old(self).egt, *tick) } else { sample },
            final(self).since_ms == old(self).since_ms,
            final(self).n == old(self).n,
            final(self).egt == old(self).egt,
    {
        let towards = calculate_towards_ambient_egt(self.egt, tick.ambient, tick.elapsed_ms);
        if sample > towards {
            self.ignore_calculated_egt = false;
        }
        if self.ignore_calculated_egt {
            towards
        } else {
            sample
        }
    }
}

impl Running {
    fn new(egt: i64, draws: &RandomDraws) -> (r: Running)
        requires
            temperature_in_range(egt),
        ensures
            r == running_entry(egt, *draws),
    {
        let base_egt: i64 = ((340 + draws.base_egt % 11) * 1_000_000) as i64;
        Running {
            egt,
            base_egt,
            base_egt_deviation: egt - base_egt,
            bleed_air_usage: BleedAirUsageEgtDelta::new(draws.bleed_air),
            apu_gen_usage: ApuGenUsageEgtDelta::new(draws.generator_load),
        }
    }

    /// Reduces the deviation, advances both load offsets and returns the sum.
    fn calculate_egt(&mut self, tick: &Tick, samples: &CurveSamples) -> (r: i64)
        requires
            old(self).bleed_air_usage.wf(),
            old(self).apu_gen_usage.wf(),
            340_000_000 <= old(self).base_egt <= 350_000_000,
            temperature_in_range(old(self).base_egt_deviation),
        ensures
            final(self).bleed_air_usage.wf(),
            final(self).apu_gen_usage.wf(),
            r == running_step(*old(self), *tick, *samples).egt,
            *final(self) == (Running { egt: old(self).egt, ..running_step(*old(self), *tick, *samples) }),
    {
        let reduction: i128 = tick.elapsed_ms as i128 * 1000;
        if self.base_egt_deviation as i128 <= reduction {
            self.base_egt_deviation = 0;
        } else {
            self.base_egt_deviation = self.base_egt_deviation - reduction as i64;
        }
        self.apu_gen_usage.update(tick.elapsed_ms, tick.apu_gen_is_used);
        self.bleed_air_usage.update(tick.elapsed_ms, tick.apu_bleed_is_used, samples.bleed_air_rate);
        let gen = self.apu_gen_usage.egt_delta();
        let bleed = self.bleed_air_usage.egt_delta();
        self.base_egt + self.base_egt_deviation + gen + bleed
    }
}

impl Stopping {
    fn new(egt: i64, n: u64) -> (r: Stopping)
        ensures
            r == stopping_entry(egt, n),
    {
        Stopping { since_ms: 0, base_temperature: egt, n, egt }
    }
}

impl Aps3200Turbine {
    /// Advances the turbine by one tick and returns its successor.
    pub fn update(self, tick: &Tick, samples: &CurveSamples, draws: &RandomDraws) -> (r: Aps3200Turbine)
        requires
            self.wf(),
            self.temperatures_in_range(),
            tick.wf(),
            samples.wf(),
        ensures
            r == self.next(*tick, *samples, *draws),
            r.wf(),
    {
        match self {
            Aps3200Turbine::Shutdown(mut s) => {
                s.egt = calculate_towards_ambient_egt(s.egt, tick.ambient, tick.elapsed_ms);
                proof {
                    lemma_towards_target_between(s.egt, tick.ambient, APU_AMBIENT_COEFFICIENT, tick.elapsed_ms);
                }
                if tick.should_start {
                    Aps3200Turbine::Starting(Starting::new(s.egt))
                } else {
                    Aps3200Turbine::Shutdown(s)
                }
            },
            Aps3200Turbine::Starting(mut s) => {
                proof {
                    lemma_towards_target_between(s.egt, tick.ambient, APU_AMBIENT_COEFFICIENT, tick.elapsed_ms);
                }
                s.since_ms = add_ms(s.since_ms, tick.elapsed_ms);
                s.n = Starting::calculate_n(s.since_ms, samples.n);
                s.egt = s.calculate_egt(tick, samples.egt);
                if tick.should_stop {
                    Aps3200Turbine::Stopping(Stopping::new(s.egt, s.n))
                } else if s.n == FULL_N {
                    Aps3200Turbine::Running(Running::new(s.egt, draws))
                } else {
                    Aps3200Turbine::Starting(s)
                }
            },
            Aps3200Turbine::Running(mut r) => {
                r.egt = r.calculate_egt(tick, samples);
                if tick.should_stop {
                    Aps3200Turbine::Stopping(Stopping::new(r.egt, FULL_N))
                } else {
                    Aps3200Turbine::Running(r)
                }
            },
            Aps3200Turbine::Stopping(mut s) => {
                s.since_ms = add_ms(s.since_ms, tick.elapsed_ms);
                s.n = clamp_n(samples.n);
                s.egt = s.base_temperature + samples.egt;
                if s.n == 0 {
                    Aps3200Turbine::Shutdown(ShutdownAps3200Turbine::new_with_egt(s.egt))
                } else {
                    Aps3200Turbine::Stopping(s)
                }
            },
        }
    }

    /// Speed, in millionths of a percent.
    pub fn n(&self) -> (r: u64)
        ensures
            r == self.n_spec(),
    {
        match self {
            Aps3200Turbine::Shutdown(_) => 0,
            Aps3200Turbine::Starting(s) => s.n,
            Aps3200Turbine::Running(_) => FULL_N,
            Aps3200Turbine::Stopping(s) => s.n,
        }
    }

    /// Exhaust gas temperature, in millionths of a degree Celsius.
    pub fn egt(&self) -> (r: i64)
        ensures
            r == self.egt_spec(),
    {
        match self {
            Aps3200Turbine::Shutdown(s) => s.egt,
            Aps3200Turbine::Starting(s) => s.egt,
            Aps3200Turbine::Running(r) => r.egt,
            Aps3200Turbine::Stopping(s) => s.egt,
        }
    }

    pub fn state(&self) -> (r: TurbineState)
        ensures
            r == self.state_spec(),
    {
        match self {
            Aps3200Turbine::Shutdown(_) => TurbineState::Shutdown,
            Aps3200Turbine::Starting(_) => TurbineState::Starting,
            Aps3200Turbine::Running(_) => TurbineState::Running,
            Aps3200Turbine::Stopping(_) => TurbineState::Stopping,
        }
    }

    /// Whether the next tick may start from this state
    /// ([`Self::temperatures_in_range`]).
    pub fn is_in_range(&self) -> (r: bool)
        ensures
            r == self.temperatures_in_range(),
    {
        match self {
            Aps3200Turbine::Shutdown(s) => -TEMPERATURE_LIMIT <= s.egt && s.egt <= TEMPERATURE_LIMIT,
            Aps3200Turbine::Starting(s) => -TEMPERATURE_LIMIT <= s.egt && s.egt <= TEMPERATURE_LIMIT,
            Aps3200Turbine::Running(r) => {
                -TEMPERATURE_LIMIT <= r.egt && r.egt <= TEMPERATURE_LIMIT
                    && -TEMPERATURE_LIMIT <= r.base_egt_deviation
                    && r.base_egt_deviation <= TEMPERATURE_LIMIT
            },
            Aps3200Turbine::Stopping(s) => {
                -TEMPERATURE_LIMIT <= s.egt && s.egt <= TEMPERATURE_LIMIT
                    && -TEMPERATURE_LIMIT <= s.base_temperature
                    && s.base_temperature <= TEMPERATURE_LIMIT
            },
        }
    }

    /// Where the host reads the speed curve for a tick of `elapsed_ms`.
    pub fn speed_curve_point(&self, elapsed_ms: u64) -> (r: Option<u64>)
        ensures
            r == self.speed_curve_point_spec(elapsed_ms),
    {
        match self {
            Aps3200Turbine::Starting(s) => {
                let since = add_ms(s.since_ms, elapsed_ms);
                if since > START_IGNITION_AFTER_MS {
                    let t = since - START_IGNITION_AFTER_MS;
                    Some(if t > STARTING_TIME_LIMIT_MS { STARTING_TIME_LIMIT_MS } else { t })
                } else {
                    None
                }
            },
            Aps3200Turbine::Stopping(s) => {
                let since = add_ms(s.since_ms, elapsed_ms);
                Some(if since > STOPPING_TIME_LIMIT_MS { STOPPING_TIME_LIMIT_MS } else { since })
            },
            _ => None,
        }
    }

    /// The speed after a tick of `elapsed_ms` whose speed curve sample is
    /// `n_sample`, whatever the controller asks; this is where the host reads
    /// the EGT curves.
    pub fn next_n(&self, elapsed_ms: u64, n_sample: i64) -> (r: u64)
        ensures
            forall|tick: Tick, samples: CurveSamples, draws: RandomDraws|
                tick.elapsed_ms == elapsed_ms && samples.n == n_sample
                    ==> #[trigger] self.next(tick, samples, draws).n_spec() == r,
    {
        match self {
            Aps3200Turbine::Shutdown(_) => 0,
            Aps3200Turbine::Starting(s) => Starting::calculate_n(add_ms(s.since_ms, elapsed_ms), n_sample),
            Aps3200Turbine::Running(_) => FULL_N,
            Aps3200Turbine::Stopping(_) => clamp_n(n_sample),
        }
    }

    /// Where the host reads the bleed-air offset's rate curve: the offset's
    /// distance to its target, in a running state.
    pub fn bleed_air_curve_point(&self, apu_bleed_is_used: bool) -> (r: Option<u64>)
        requires
            self.wf(),
        ensures
            self matches Aps3200Turbine::Running(run) ==> r == Some(
                if run.bleed_air_usage.current >= run.bleed_air_usage.target_for(apu_bleed_is_used) {
                    (run.bleed_air_usage.current - run.bleed_air_usage.target_for(apu_bleed_is_used)) as u64
                } else {
                    (run.bleed_air_usage.target_for(apu_bleed_is_used) - run.bleed_air_usage.current) as u64
                }),
            !(self is Running) ==> r is None,
    {
        match self {
            Aps3200Turbine::Running(r) => Some(r.bleed_air_usage.distance(apu_bleed_is_used)),
            _ => None,
        }
    }
}

} // verus!
