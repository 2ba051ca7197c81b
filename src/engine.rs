//! The Kelly engine: stake fraction and expected value of a binary wager.
//!
//! With net odds `b` (profit per unit staked on a win), win probability `p`
//! and `q = 1 - p`, the expected value is `p·b - q` and the Kelly fraction is
//! `(b·p - q) / b`. Decimal odds give `b = odds - 1`; a market price gives
//! `b = (1 - price) / price`. Both adapters feed one shared core.
use vstd::prelude::*;
use crate::rational::{Fraction, Ratio, Rational};

verus! {

/// The outcome of one calculation.
#[derive(Clone, Copy, Debug, PartialEq, Eq)]
pub struct KellyResult {
    /// The Kelly stake as a fraction of capital; may be negative or above one.
    /// Absent when the net odds are zero, where the formula has no value.
    pub optimal_fraction: Option<Fraction>,
    /// Expected profit per unit staked.
    pub expected_value: Fraction,
    /// The expected value is strictly positive.
    pub positive_ev: bool,
}

pub open spec fn one() -> Rational {
    Rational::whole(1)
}

/// A probability: a value in `[0, 1]`.
pub open spec fn is_probability(p: Ratio) -> bool {
    p.wf() && 0 <= p.num <= p.den
}

/// Net odds: a non-negative value.
pub open spec fn is_net_odds(b: Ratio) -> bool {
    b.wf() && b.num >= 0
}

/// `p·b - q`.
pub open spec fn expected_value_of(b: Rational, p: Rational) -> Rational {
    p.times(b).minus(one().minus(p))
}

/// `(b·p - q) / b`.
pub open spec fn kelly_fraction_of(b: Rational, p: Rational) -> Rational {
    b.times(p).minus(one().minus(p)).over(b)
}

/// The numerator that the expected value and the Kelly fraction share:
/// `p·b - q` scaled by both denominators.
pub open spec fn edge(b: Ratio, p: Ratio) -> int {
    p.num * b.num - (p.den - p.num) * b.den
}

/// The exact record that the engine produces for net odds `b` and
/// probability `p`.
pub open spec fn kelly_result(b: Ratio, p: Ratio) -> KellyResult {
    KellyResult {
        optimal_fraction: if b.num == 0 {
            None
        } else {
            Some(Fraction { num: edge(b, p) as i128, den: (p.den * b.num) as i128 })
        },
        expected_value: Fraction { num: edge(b, p) as i128, den: (p.den * b.den) as i128 },
        positive_ev: edge(b, p) > 0,
    }
}

/// Net odds of decimal odds: `odds - 1`.
pub open spec fn net_odds_of_odds(odds: Ratio) -> Ratio {
    Ratio { num: (odds.num - odds.den) as i64, den: odds.den }
}

/// Net odds of a market price: `(1 - price) / price`, written over `price`'s
/// numerator.
pub open spec fn net_odds_of_price(price: Ratio) -> Ratio {
    Ratio { num: (price.den - price.num) as i64, den: price.num }
}

/// `1 / r`, by swapping the two parts.
pub open spec fn reciprocal(r: Ratio) -> Ratio {
    Ratio { num: r.den, den: r.num }
}

proof fn lemma_edge_bounds(bn: int, bd: int, n: int, m: int)
    requires
        0 <= bn <= i64::MAX,
        0 < bd <= i64::MAX,
        0 <= n <= m <= i64::MAX,
        0 < m,
    ensures
        0 <= n * bn <= i64::MAX * i64::MAX,
        0 <= (m - n) * bd <= i64::MAX * i64::MAX,
        0 < m * bd <= i64::MAX * i64::MAX,
        0 <= m * bn <= i64::MAX * i64::MAX,
{
    assert(0 <= n * bn <= i64::MAX * i64::MAX) by (nonlinear_arith)
        requires 0 <= bn <= i64::MAX, 0 <= n <= i64::MAX,;
    assert(0 <= (m - n) * bd <= i64::MAX * i64::MAX) by (nonlinear_arith)
        requires 0 < bd <= i64::MAX, 0 <= m - n <= i64::MAX,;
    assert(0 < m * bd <= i64::MAX * i64::MAX) by (nonlinear_arith)
        requires 0 < bd <= i64::MAX, 0 < m <= i64::MAX,;
    assert(0 <= m * bn <= i64::MAX * i64::MAX) by (nonlinear_arith)
        requires 0 <= bn <= i64::MAX, 0 < m <= i64::MAX,;
}

proof fn lemma_edge_values(bn: int, bd: int, n: int, m: int)
    requires
        bd > 0,
        m > 0,
    ensures
        Rational::of(n * bn - (m - n) * bd, m * bd).eqv(
            expected_value_of(Rational::of(bn, bd), Rational::of(n, m)),
        ),
        Rational::of(n * bn - (m - n) * bd, m * bn).eqv(
            kelly_fraction_of(Rational::of(bn, bd), Rational::of(n, m)),
        ),
        Rational::of(n * bn - (m - n) * bd, m * bd).is_positive()
            <==> n * bn - (m - n) * bd > 0,
{
    let e = n * bn - (m - n) * bd;
    let ev = expected_value_of(Rational::of(bn, bd), Rational::of(n, m));
    let kf = kelly_fraction_of(Rational::of(bn, bd), Rational::of(n, m));
    assert(ev.num == m * e && ev.den == (m * bd) * m) by (nonlinear_arith)
        requires
            e == n * bn - (m - n) * bd,
            ev.num == (n * bn) * (1 * m) - (1 * m - n * 1) * (m * bd),
            ev.den == (m * bd) * (1 * m),
    ;
    assert(e * ev.den == ev.num * (m * bd)) by (nonlinear_arith)
        requires ev.num == m * e, ev.den == (m * bd) * m,;
    assert(kf.num == m * e * bd && kf.den == bd * m * m * bn) by (nonlinear_arith)
        requires
            e == n * bn - (m - n) * bd,
            kf.num == ((bn * n) * (1 * m) - (1 * m - n * 1) * (bd * m)) * bd,
            kf.den == ((bd * m) * (1 * m)) * bn,
    ;
    assert(e * kf.den == kf.num * (m * bn)) by (nonlinear_arith)
        requires kf.num == m * e * bd, kf.den == bd * m * m * bn,;
    assert(m * bd > 0) by (nonlinear_arith)
        requires m > 0, bd > 0,;
    assert(e * (m * bd) > 0 <==> e > 0) by (nonlinear_arith)
        requires m * bd > 0,;
}

/// The shared core: the Kelly record for net odds `net_odds` and win
/// probability `win_rate`.
pub fn kelly_from_net_odds(net_odds: Ratio, win_rate: Ratio) -> (r: KellyResult)
    requires
        is_net_odds(net_odds),
        is_probability(win_rate),
    ensures
        r == kelly_result(net_odds, win_rate),
        r.expected_value.wf(),
        r.expected_value@.eqv(expected_value_of(net_odds@, win_rate@)),
        r.positive_ev == r.expected_value@.is_positive(),
        r.optimal_fraction is Some <==> net_odds.num != 0,
        r.optimal_fraction matches Some(f) ==> f.wf() && f@.eqv(
            kelly_fraction_of(net_odds@, win_rate@),
        ),
{
    let bn = net_odds.num as i128;
    let bd = net_odds.den as i128;
    let n = win_rate.num as i128;
    let m = win_rate.den as i128;
    proof {
        lemma_edge_bounds(bn as int, bd as int, n as int, m as int);
        lemma_edge_values(bn as int, bd as int, n as int, m as int);
        assert(i64::MAX * i64::MAX < 0x4000_0000_0000_0000_0000_0000_0000_0000);
    }
    let edge = n * bn - (m - n) * bd;
    let expected_value = Fraction { num: edge, den: m * bd };
    let optimal_fraction = if bn == 0 {
        None
    } else {
        proof {
            assert(m * bn > 0) by (nonlinear_arith)
                requires m > 0, bn > 0,;
        }
        Some(Fraction { num: edge, den: m * bn })
    };
    KellyResult { optimal_fraction, expected_value, positive_ev: edge > 0 }
}

/// Kelly record for decimal odds `odds` (above one) and win probability
/// `win_rate`.
pub fn compute_fixed_odds(odds: Ratio, win_rate: Ratio) -> (r: KellyResult)
    requires
        odds.wf(),
        odds.num > odds.den,
        is_probability(win_rate),
    ensures
        r == kelly_result(net_odds_of_odds(odds), win_rate),
        r.expected_value.wf(),
        r.expected_value@.eqv(expected_value_of(odds@.minus(one()), win_rate@)),
        r.positive_ev == r.expected_value@.is_positive(),
        r.optimal_fraction is Some,
        r.optimal_fraction matches Some(f) ==> f.wf() && f@.eqv(
            kelly_fraction_of(odds@.minus(one()), win_rate@),
        ),
{
    let net_odds = Ratio { num: odds.num - odds.den, den: odds.den };
    assert(odds@.minus(one()) == net_odds@);
    kelly_from_net_odds(net_odds, win_rate)
}

/// Kelly record for a market price `market_price` in `(0, 1]` and the
/// user's own probability `your_probability`. The market pays `1 / price`
/// per unit staked, so this is the fixed-odds record at odds `1 / price`.
/// At price one the net odds are zero and the fraction is absent.
pub fn compute_market_price(market_price: Ratio, your_probability: Ratio) -> (r: KellyResult)
    requires
        market_price.wf(),
        0 < market_price.num <= market_price.den,
        is_probability(your_probability),
    ensures
        r == kelly_result(net_odds_of_price(market_price), your_probability),
        net_odds_of_price(market_price)@.eqv(one().minus(market_price@).over(market_price@)),
        r.expected_value.wf(),
        r.expected_value@.eqv(
            expected_value_of(reciprocal(market_price)@.minus(one()), your_probability@),
        ),
        r.positive_ev == r.expected_value@.is_positive(),
        r.optimal_fraction is Some <==> market_price.num < market_price.den,
        r.optimal_fraction matches Some(f) ==> f.wf() && f@.eqv(
            kelly_fraction_of(reciprocal(market_price)@.minus(one()), your_probability@),
        ),
{
    let net_odds = Ratio { num: market_price.den - market_price.num, den: market_price.num };
    assert(reciprocal(market_price)@.minus(one()) == net_odds@);
    proof {
        let x = market_price.num as int;
        let y = market_price.den as int;
        assert((y - x) * ((1 * y) * x) == ((1 * y - x * 1) * y) * x) by (nonlinear_arith);
    }
    kelly_from_net_odds(net_odds, your_probability)
}

/// A market price is fixed odds at the reciprocal of the price: for a price
/// in `(0, 1)` and any probability, the market record equals, field for
/// field, the fixed-odds record at odds `1 / price`, and those odds are
/// valid fixed odds.
pub proof fn lemma_market_price_is_reciprocal_odds(market_price: Ratio, your_probability: Ratio)
    requires
        market_price.wf(),
        0 < market_price.num < market_price.den,
        is_probability(your_probability),
    ensures
        reciprocal(market_price).wf(),
        reciprocal(market_price).num > reciprocal(market_price).den,
        kelly_result(net_odds_of_price(market_price), your_probability) == kelly_result(
            net_odds_of_odds(reciprocal(market_price)),
            your_probability,
        ),
{
}

/// Break-even: when the win probability equals `1 / odds`, the expected
/// value and the Kelly fraction are exactly zero, and the wager is not
/// marked as positive.
pub proof fn lemma_break_even(odds: Ratio, win_rate: Ratio)
    requires
        odds.wf(),
        odds.num > odds.den,
        is_probability(win_rate),
        win_rate@.eqv(one().over(odds@)),
    ensures
        kelly_result(net_odds_of_odds(odds), win_rate).expected_value.num == 0,
        kelly_result(net_odds_of_odds(odds), win_rate).optimal_fraction matches Some(f) && f.num == 0,
        !kelly_result(net_odds_of_odds(odds), win_rate).positive_ev,
{
    let a = odds.num as int;
    let d = odds.den as int;
    let n = win_rate.num as int;
    let m = win_rate.den as int;
    assert(n * (a - d) - (m - n) * d == 0) by (nonlinear_arith)
        requires n * (1 * a) == (1 * d) * m,;
}

/// Both engine operations are functions of their inputs alone: two records
/// that meet the operations' postconditions for the same inputs are equal in
/// every field.
pub proof fn lemma_engine_is_deterministic(
    odds: Ratio,
    market_price: Ratio,
    p: Ratio,
    r1: KellyResult,
    r2: KellyResult,
    s1: KellyResult,
    s2: KellyResult,
)
    requires
        r1 == kelly_result(net_odds_of_odds(odds), p),
        r2 == kelly_result(net_odds_of_odds(odds), p),
        s1 == kelly_result(net_odds_of_price(market_price), p),
        s2 == kelly_result(net_odds_of_price(market_price), p),
    ensures
        r1 == r2,
        s1 == s2,
{
}

} // verus!
