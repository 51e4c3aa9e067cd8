//! Properties of the turbine's ticks that hold for every state and input.
use vstd::prelude::*;

use crate::ambient::lag_fraction;
use crate::ambient::lag_step;
use crate::ambient::lemma_towards_target_between;
use crate::ambient::towards_target;
use crate::ambient::gap;
use crate::thermal::scaled_change;
use crate::thermal::GEN_RAMP_MS;
use crate::thermal::lemma_bleed_air_moves_towards_target;
use crate::turbine::Aps3200Turbine;
use crate::turbine::CurveSamples;
use crate::turbine::RandomDraws;
use crate::turbine::ShutdownAps3200Turbine;
use crate::turbine::STOPPING_TIME_LIMIT_MS;
use crate::turbine::Tick;
use crate::turbine::TurbineState;
use crate::turbine::starting_speed_point;
use crate::turbine::stopping_entry;
use crate::turbine::stopping_speed_point;
use crate::turbine::running_step;
use crate::turbine::reduced_deviation;
use crate::turbine::stopping_step;
use crate::units::FULL_N;
use crate::units::clamp_n_spec;

verus! {

proof fn lemma_lag_step_monotonic(gap: int, coefficient: u64, e1: u64, e2: u64)
    requires
        gap >= 0,
        e1 <= e2,
    ensures
        lag_step(gap, coefficient, e1) <= lag_step(gap, coefficient, e2),
{
    let f1 = lag_fraction(coefficient, e1);
    let f2 = lag_fraction(coefficient, e2);
    assert(0 <= f1 <= f2) by (nonlinear_arith)
        requires
            f1 == coefficient * e1,
            f2 == coefficient * e2,
            0 <= coefficient,
            0 <= e1 <= e2,
    ;
    if f1 < 1_000_000 {
        assert(gap * f1 <= gap * 1_000_000) by (nonlinear_arith)
            requires
                gap >= 0,
                0 <= f1 < 1_000_000,
        ;
        assert(gap * f1 / 1_000_000 <= gap) by (nonlinear_arith)
            requires
                gap * f1 <= gap * 1_000_000,
                gap >= 0,
                f1 >= 0,
        ;
        if f2 < 1_000_000 {
            assert(gap * f1 <= gap * f2) by (nonlinear_arith)
                requires
                    gap >= 0,
                    f1 <= f2,
            ;
            vstd::arithmetic::div_mod::lemma_div_is_ordered(gap * f1, gap * f2, 1_000_000);
        }
    }
}

/// A first-order lag moves further towards its target, without passing it,
/// the longer it runs: after `e2 >= e1` the value lies between the value
/// after `e1` and the target.
pub proof fn lemma_towards_target_monotonic_in_time(current: i64, target: i64, coefficient: u64, e1: u64, e2: u64)
    requires
        e1 <= e2,
    ensures
        current <= target ==> towards_target(current, target, coefficient, e1) <= towards_target(
            current,
            target,
            coefficient,
            e2,
        ) <= target,
        target <= current ==> target <= towards_target(current, target, coefficient, e2) <= towards_target(
            current,
            target,
            coefficient,
            e1,
        ),
{
    lemma_towards_target_between(current, target, coefficient, e2);
    if current <= target {
        lemma_lag_step_monotonic(target - current, coefficient, e1, e2);
    } else {
        lemma_lag_step_monotonic(current - target, coefficient, e1, e2);
    }
}

/// At rest and without a start request, the turbine stays shut down with
/// no speed, and its EGT moves towards ambient without passing it: strictly
/// closer on a tick of at least a millisecond, onto ambient on a tick of a
/// second or more, and at least as close over a longer tick.
pub proof fn lemma_shutdown_idle_approaches_ambient(
    t: Aps3200Turbine,
    tick: Tick,
    longer: Tick,
    samples: CurveSamples,
    draws: RandomDraws,
)
    requires
        t is Shutdown,
        !tick.should_start,
        longer == (Tick { elapsed_ms: longer.elapsed_ms, ..tick }),
        tick.elapsed_ms <= longer.elapsed_ms,
    ensures
        t.next(tick, samples, draws).state_spec() == TurbineState::Shutdown,
        t.next(tick, samples, draws).n_spec() == 0,
        t.egt_spec() <= tick.ambient ==> t.egt_spec() <= t.next(tick, samples, draws).egt_spec() <= t.next(
            longer,
            samples,
            draws,
        ).egt_spec() <= tick.ambient,
        tick.ambient <= t.egt_spec() ==> tick.ambient <= t.next(longer, samples, draws).egt_spec() <= t.next(
            tick,
            samples,
            draws,
        ).egt_spec() <= t.egt_spec(),
        t.egt_spec() != tick.ambient && tick.elapsed_ms > 0 ==> gap(
            t.next(tick, samples, draws).egt_spec() as int,
            tick.ambient as int,
        ) < gap(t.egt_spec() as int, tick.ambient as int),
        tick.elapsed_ms >= 1000 ==> t.next(tick, samples, draws).egt_spec() == tick.ambient,
{
    let e = t.egt_spec();
    lemma_towards_target_between(e, tick.ambient, 1000, tick.elapsed_ms);
    lemma_towards_target_monotonic_in_time(e, tick.ambient, 1000, tick.elapsed_ms, longer.elapsed_ms);
}

/// The state after a run of ticks, each with the given samples and draws.
pub open spec fn run(t: Aps3200Turbine, ticks: Seq<Tick>, samples: CurveSamples, draws: RandomDraws) -> Aps3200Turbine
    decreases ticks.len(),
{
    if ticks.len() == 0 {
        t
    } else {
        run(t.next(ticks[0], samples, draws), ticks.drop_first(), samples, draws)
    }
}

/// Over a run of ticks without a start request, each at least a millisecond
/// long, at a fixed ambient temperature, a shut-down turbine stays shut down
/// with no speed and its EGT converges on ambient: the distance never grows
/// and shrinks by at least one unit on each tick until it is zero.
pub proof fn lemma_shutdown_idle_converges_to_ambient(
    t: Aps3200Turbine,
    ticks: Seq<Tick>,
    ambient: i64,
    samples: CurveSamples,
    draws: RandomDraws,
)
    requires
        t is Shutdown,
        forall|i: int|
            0 <= i < ticks.len() ==> {
                &&& (#[trigger] ticks[i]).ambient == ambient
                &&& !ticks[i].should_start
                &&& ticks[i].elapsed_ms >= 1
            },
    ensures
        run(t, ticks, samples, draws) is Shutdown,
        run(t, ticks, samples, draws).n_spec() == 0,
        gap(run(t, ticks, samples, draws).egt_spec() as int, ambient as int) <= gap(
            t.egt_spec() as int,
            ambient as int,
        ),
        gap(run(t, ticks, samples, draws).egt_spec() as int, ambient as int) <= if gap(
            t.egt_spec() as int,
            ambient as int,
        ) >= ticks.len() {
            gap(t.egt_spec() as int, ambient as int) - ticks.len()
        } else {
            0
        },
    decreases ticks.len(),
{
    if ticks.len() > 0 {
        let tick = ticks[0];
        let t1 = t.next(tick, samples, draws);
        lemma_towards_target_between(t.egt_spec(), ambient, 1000, tick.elapsed_ms);
        let rest = ticks.drop_first();
        assert forall|i: int| 0 <= i < rest.len() implies {
            &&& (#[trigger] rest[i]).ambient == ambient
            &&& !rest[i].should_start
            &&& rest[i].elapsed_ms >= 1
        } by {
            assert(rest[i] == ticks[i + 1]);
        }
        lemma_shutdown_idle_converges_to_ambient(t1, rest, ambient, samples, draws);
    }
}

/// A start request takes a resting turbine to a start at zero speed.
pub proof fn lemma_start_request_begins_start(t: Aps3200Turbine, tick: Tick, samples: CurveSamples, draws: RandomDraws)
    requires
        t is Shutdown,
        tick.should_start,
    ensures
        t.next(tick, samples, draws).state_spec() == TurbineState::Starting,
        t.next(tick, samples, draws).n_spec() == 0,
{
}

/// While starting without a stop request: the point at which the speed curve
/// is read never moves back; speed does not fall when the curve's sample is
/// no lower than the current speed; and the tick ends in the running state
/// exactly when the speed has reached 100%.
pub proof fn lemma_starting_progress(
    t: Aps3200Turbine,
    tick: Tick,
    samples: CurveSamples,
    draws: RandomDraws,
    later: u64,
)
    requires
        t is Starting,
        t.wf(),
        !tick.should_stop,
        t.speed_curve_point_spec(tick.elapsed_ms) is None || samples.n >= t.n_spec(),
    ensures
        t.next(tick, samples, draws).n_spec() >= t.n_spec(),
        t.next(tick, samples, draws).n_spec() <= FULL_N,
        (t.next(tick, samples, draws).state_spec() == TurbineState::Running) == (t.next(
            tick,
            samples,
            draws,
        ).n_spec() == FULL_N),
        t.next(tick, samples, draws).state_spec() != TurbineState::Running ==> t.next(
            tick,
            samples,
            draws,
        ).state_spec() == TurbineState::Starting,
        t.speed_curve_point_spec(tick.elapsed_ms) is Some && t.next(tick, samples, draws) is Starting
            ==> t.next(tick, samples, draws).speed_curve_point_spec(later) is Some
            && t.next(tick, samples, draws).speed_curve_point_spec(later)->0 >= t.speed_curve_point_spec(
            tick.elapsed_ms,
        )->0,
{
}

/// Running with neither bleed air nor generator load, a tick long enough for
/// the entry deviation to decay (one degree per second), for the generator
/// ramp to run down and for the bleed-air offset to fall to zero at the
/// sampled rate brings the EGT to exactly the base EGT.
pub proof fn lemma_running_unloaded_settles_on_base_egt(
    t: Aps3200Turbine,
    tick: Tick,
    samples: CurveSamples,
    draws: RandomDraws,
)
    requires
        t.wf(),
        t matches Aps3200Turbine::Running(r) && {
            &&& r.base_egt_deviation <= tick.elapsed_ms * 1000
            &&& scaled_change(samples.bleed_air_rate, tick.elapsed_ms) >= r.bleed_air_usage.current
        },
        tick.elapsed_ms >= GEN_RAMP_MS,
        !tick.apu_bleed_is_used,
        !tick.apu_gen_is_used,
        !tick.should_stop,
    ensures
        (t matches Aps3200Turbine::Running(r) && (t.next(tick, samples, draws) matches Aps3200Turbine::Running(r2)
            && r2.egt == r.base_egt && r2.base_egt == r.base_egt)),
{
}

/// A running state's EGT is its base plus the deviation and the two load
/// offsets; true on entry and kept by every tick.
pub open spec fn running_egt_consistent(t: Aps3200Turbine) -> bool {
    t matches Aps3200Turbine::Running(r) && r.egt == r.base_egt + r.base_egt_deviation + r.apu_gen_usage.delta()
        + r.bleed_air_usage.current
}

/// Running with neither bleed air nor generator load, at a non-negative
/// bleed-air rate, each tick keeps the turbine running on the same base EGT
/// and brings the EGT towards that base: never up, never below the base.
/// (A negative entry deviation, dropped on the first tick, is left out.)
pub proof fn lemma_running_unloaded_egt_falls_towards_base(
    t: Aps3200Turbine,
    tick: Tick,
    samples: CurveSamples,
    draws: RandomDraws,
)
    requires
        t.wf(),
        t.temperatures_in_range(),
        running_egt_consistent(t),
        t matches Aps3200Turbine::Running(r) && r.base_egt_deviation >= 0,
        !tick.apu_bleed_is_used,
        !tick.apu_gen_is_used,
        !tick.should_stop,
        samples.bleed_air_rate >= 0,
    ensures
        running_egt_consistent(t.next(tick, samples, draws)),
        (t matches Aps3200Turbine::Running(r) && (t.next(tick, samples, draws) matches Aps3200Turbine::Running(r2)
            && r2.base_egt == r.base_egt && r.base_egt <= r2.egt <= r.egt)),
{
    if let Aps3200Turbine::Running(r) = t {
        lemma_bleed_air_moves_towards_target(r.bleed_air_usage, tick.elapsed_ms, false, samples.bleed_air_rate);
        let g = r.apu_gen_usage;
        let g2 = g.stepped(tick.elapsed_ms, false);
        assert(0 <= g2.delta() <= g.delta()) by (nonlinear_arith)
            requires
                g2.time_ms <= g.time_ms,
                g2.base_egt_delta_per_second == g.base_egt_delta_per_second,
                g.base_egt_delta_per_second >= 0,
                g2.delta() == g2.time_ms * g2.base_egt_delta_per_second / 1000,
                g.delta() == g.time_ms * g.base_egt_delta_per_second / 1000,
        {
            assert(g2.time_ms * g2.base_egt_delta_per_second <= g.time_ms * g.base_egt_delta_per_second);
        }
        lemma_running_deviation_decays(r.base_egt_deviation, tick.elapsed_ms);
    }
}

/// While running, the deviation from the base EGT falls by one degree per
/// second and stops at zero; a negative deviation is dropped at once.
pub proof fn lemma_running_deviation_decays(deviation: i64, elapsed_ms: u64)
    ensures
        deviation >= 0 ==> reduced_deviation(deviation, elapsed_ms) == if deviation - elapsed_ms * 1000 >= 0 {
            deviation - elapsed_ms * 1000
        } else {
            0
        },
        deviation < 0 ==> reduced_deviation(deviation, elapsed_ms) == 0,
        0 <= reduced_deviation(deviation, elapsed_ms),
{
}

/// A stop request takes a running turbine to a stop from full speed, based
/// on the EGT of that tick.
pub proof fn lemma_stop_request_begins_stop(t: Aps3200Turbine, tick: Tick, samples: CurveSamples, draws: RandomDraws)
    requires
        t matches Aps3200Turbine::Running(_),
        tick.should_stop,
    ensures
        (t matches Aps3200Turbine::Running(r) && t.next(tick, samples, draws) == Aps3200Turbine::Stopping(
            stopping_entry(running_step(r, tick, samples).egt, FULL_N),
        )),
{
}

/// Once stopping has run past the curve's time limit the speed curve is
/// always read at that limit; and the tick on which the speed reaches 0%
/// ends shut down with the EGT that tick computed.
pub proof fn lemma_stopping_ends_in_shutdown(t: Aps3200Turbine, tick: Tick, samples: CurveSamples, draws: RandomDraws)
    requires
        t is Stopping,
    ensures
        (t matches Aps3200Turbine::Stopping(s) && s.since_ms >= STOPPING_TIME_LIMIT_MS) ==> t.speed_curve_point_spec(
            tick.elapsed_ms,
        ) == Some(STOPPING_TIME_LIMIT_MS),
        clamp_n_spec(samples.n) == 0 ==> (t matches Aps3200Turbine::Stopping(s) && t.next(tick, samples, draws)
            == Aps3200Turbine::Shutdown((ShutdownAps3200Turbine { egt: stopping_step(s, tick, samples).egt }))),
        clamp_n_spec(samples.n) != 0 ==> t.next(tick, samples, draws).state_spec() == TurbineState::Stopping,
{
}

} // verus!
