//! The percentage that a level stands for, in fixed point.
use vstd::prelude::*;

verus! {

/// How many decimal places a percentage is shown with.
#[derive(Clone, Copy, Debug, PartialEq, Eq, Structural)]
pub enum Precision {
    /// Whole percents: `50%`.
    Whole,
    /// Two decimal places: `50.20%`.
    Hundredths,
}

/// Units of a percentage in one percent: 1 for whole percents, 100 for hundredths.
pub open spec fn units_per_percent(p: Precision) -> nat {
    match p {
        Precision::Whole => 1,
        Precision::Hundredths => 100,
    }
}

/// `n / d` rounded to the nearest integer, a tie going to the even neighbour.
pub open spec fn round_div(n: nat, d: nat) -> nat
    recommends
        d > 0,
{
    let q = n / d;
    let r = n % d;
    if 2 * r > d || (2 * r == d && q % 2 == 1) {
        q + 1
    } else {
        q
    }
}

/// `100 * level / max` in units of the precision, rounded to the nearest unit.
pub open spec fn scaled_percentage(level: nat, max: nat, p: Precision) -> nat
    recommends
        max > 0,
{
    round_div(level * 100 * units_per_percent(p), max)
}

/// A rounded quotient lies within half a unit of the exact one.
pub proof fn lemma_round_div_nearest(n: nat, d: nat)
    requires
        d > 0,
    ensures
        2 * round_div(n, d) * d <= 2 * n + d,
        2 * n <= 2 * round_div(n, d) * d + d,
{
    let q = n / d;
    let r = n % d;
    assert(n == q * d + r) by (nonlinear_arith)
        requires
            d > 0,
            q == n / d,
            r == n % d,
    ;
    assert(0 <= r < d) by (nonlinear_arith)
        requires
            d > 0,
            r == n % d,
    ;
    let x = round_div(n, d);
    if x == q + 1 {
        assert(2 * r >= d);
        assert(2 * x * d == 2 * (q * d) + 2 * d) by (nonlinear_arith)
            requires
                x == q + 1,
        ;
    } else {
        assert(2 * r <= d);
        assert(2 * x * d == 2 * (q * d)) by (nonlinear_arith)
            requires
                x == q,
        ;
    }
}

/// The percentage held for a level is `100 * level / max` up to half a unit of
/// the precision: `2 * |x * max - 100 * units * level| <= max`.
pub proof fn lemma_percentage_nearest(level: nat, max: nat, p: Precision)
    requires
        max > 0,
    ensures
        2 * scaled_percentage(level, max, p) * max <= 2 * (level * 100 * units_per_percent(p))
            + max,
        2 * (level * 100 * units_per_percent(p)) <= 2 * scaled_percentage(level, max, p) * max
            + max,
{
    lemma_round_div_nearest(level * 100 * units_per_percent(p), max);
}

/// The percentage that `level` is of `max`, in units of `p`, rounded to the
/// nearest unit: `2 * |r * max - 100 * units * level| <= max`.
pub fn percentage_scaled(level: u32, max: u32, p: Precision) -> (r: u64)
    requires
        max > 0,
    ensures
        r == scaled_percentage(level as nat, max as nat, p),
        2 * r * max <= 2 * (level * 100 * units_per_percent(p)) + max,
        2 * (level * 100 * units_per_percent(p)) <= 2 * r * max + max,
{
    let units: u64 = match p {
        Precision::Whole => 1,
        Precision::Hundredths => 100,
    };
    let n: u64 = level as u64 * 100 * units;
    let d: u64 = max as u64;
    let q: u64 = n / d;
    let rem: u64 = n % d;
    proof {
        lemma_percentage_nearest(level as nat, max as nat, p);
    }
    if 2 * rem > d || (2 * rem == d && q % 2 == 1) {
        assert(q + 1 <= n) by (nonlinear_arith)
            requires
                d > 0,
                q == n / d,
                rem == n % d,
                2 * rem >= d,
        ;
        q + 1
    } else {
        q
    }
}

} // verus!
