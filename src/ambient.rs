//! First-order approach of a temperature towards a target temperature.
use vstd::prelude::*;

verus! {

/// The convergence coefficient of the unit's exhaust gas temperature towards
/// ambient, in thousandths per second (1.0 per second).
pub const APU_AMBIENT_COEFFICIENT: u64 = 1000;

/// Fraction of the gap closed in one step, in millionths: the coefficient
/// (thousandths per second) times the elapsed milliseconds.
pub open spec fn lag_fraction(coefficient: u64, elapsed_ms: u64) -> int {
    coefficient * elapsed_ms
}

/// How far a first-order lag moves across a gap of `gap` in one step: the
/// fraction `coefficient * elapsed` of the gap, rounded up so that any
/// non-zero step closes some of the gap, or all of it once that fraction
/// reaches one.
pub open spec fn lag_step(gap: int, coefficient: u64, elapsed_ms: u64) -> int {
    let f = lag_fraction(coefficient, elapsed_ms);
    if f >= 1_000_000 {
        gap
    } else if (gap * f + 999_999) / 1_000_000 > gap {
        gap
    } else {
        (gap * f + 999_999) / 1_000_000
    }
}

/// The temperature after moving from `current` towards `target` for
/// `elapsed_ms`, at a rate proportional to the remaining difference.
pub open spec fn towards_target(current: i64, target: i64, coefficient: u64, elapsed_ms: u64) -> int {
    if current <= target {
        current + lag_step(target - current, coefficient, elapsed_ms)
    } else {
        current - lag_step(current - target, coefficient, elapsed_ms)
    }
}

/// The distance between two temperatures.
pub open spec fn gap(a: int, b: int) -> int {
    if a <= b {
        b - a
    } else {
        a - b
    }
}

proof fn lemma_lag_step_bounds(gap: int, coefficient: u64, elapsed_ms: u64)
    requires
        gap >= 0,
    ensures
        0 <= lag_step(gap, coefficient, elapsed_ms) <= gap,
        gap > 0 && coefficient > 0 && elapsed_ms > 0 ==> lag_step(gap, coefficient, elapsed_ms) >= 1,
{
    let f = lag_fraction(coefficient, elapsed_ms);
    assert(f >= 0) by (nonlinear_arith)
        requires
            f == coefficient * elapsed_ms,
            coefficient >= 0,
            elapsed_ms >= 0,
    ;
    if coefficient > 0 && elapsed_ms > 0 {
        assert(f >= 1) by (nonlinear_arith)
            requires
                f == coefficient * elapsed_ms,
                coefficient >= 1,
                elapsed_ms >= 1,
        ;
    }
    if f < 1_000_000 {
        assert(gap * f >= 0) by (nonlinear_arith)
            requires
                gap >= 0,
                f >= 0,
        ;
        if gap > 0 && f >= 1 {
            assert(gap * f >= 1) by (nonlinear_arith)
                requires
                    gap >= 1,
                    f >= 1,
            ;
        }
    }
}

/// The result lies between `current` and `target`, both included; and a
/// step of non-zero length with a non-zero coefficient strictly narrows a
/// non-zero gap.
pub proof fn lemma_towards_target_between(current: i64, target: i64, coefficient: u64, elapsed_ms: u64)
    ensures
        current <= target ==> current <= towards_target(current, target, coefficient, elapsed_ms) <= target,
        target <= current ==> target <= towards_target(current, target, coefficient, elapsed_ms) <= current,
        current != target && coefficient > 0 && elapsed_ms > 0 ==> gap(
            towards_target(current, target, coefficient, elapsed_ms),
            target as int,
        ) < gap(current as int, target as int),
{
    if current <= target {
        lemma_lag_step_bounds(target - current, coefficient, elapsed_ms);
    } else {
        lemma_lag_step_bounds(current - target, coefficient, elapsed_ms);
    }
}

/// Moves `current` towards `target` as a first-order lag with the given
/// coefficient (thousandths per second) over `elapsed_ms`.
pub fn towards_target_temperature(current: i64, target: i64, coefficient: u64, elapsed_ms: u64) -> (r: i64)
    ensures
        r == towards_target(current, target, coefficient, elapsed_ms),
        current != target && coefficient > 0 && elapsed_ms > 0 ==> gap(r as int, target as int) < gap(
            current as int,
            target as int,
        ),
{
    proof {
        lemma_towards_target_between(current, target, coefficient, elapsed_ms);
    }
    assert(coefficient as u128 * elapsed_ms as u128 <= u128::MAX) by (nonlinear_arith)
        requires
            coefficient < 0x1_0000_0000_0000_0000,
            elapsed_ms < 0x1_0000_0000_0000_0000,
    ;
    let fraction: u128 = coefficient as u128 * elapsed_ms as u128;
    let gap: u128 = if current <= target {
        (target as i128 - current as i128) as u128
    } else {
        (current as i128 - target as i128) as u128
    };
    let step: u128 = if fraction >= 1_000_000 {
        gap
    } else {
        assert(gap * fraction <= gap * 1_000_000) by (nonlinear_arith)
            requires
                fraction < 1_000_000,
        ;
        assert(gap * 1_000_000 + 999_999 <= u128::MAX) by (nonlinear_arith)
            requires
                gap < 0x1_0000_0000_0000_0000,
        ;
        let rounded_up: u128 = (gap * fraction + 999_999) / 1_000_000;
        if rounded_up > gap {
            gap
        } else {
            rounded_up
        }
    };
    if current <= target {
        (current as i128 + step as i128) as i64
    } else {
        (current as i128 - step as i128) as i64
    }
}

/// Moves an exhaust gas temperature towards the ambient temperature.
pub fn calculate_towards_ambient_egt(current_egt: i64, ambient: i64, elapsed_ms: u64) -> (r: i64)
    ensures
        r == towards_target(current_egt, ambient, APU_AMBIENT_COEFFICIENT, elapsed_ms),
        current_egt != ambient && elapsed_ms > 0 ==> gap(r as int, ambient as int) < gap(
            current_egt as int,
            ambient as int,
        ),
{
    towards_target_temperature(current_egt, ambient, APU_AMBIENT_COEFFICIENT, elapsed_ms)
}

} // verus!
