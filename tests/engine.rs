use kelly::engine::{compute_fixed_odds, compute_market_price, kelly_from_net_odds, KellyResult};
use kelly::rational::{Fraction, Ratio};

fn ratio(num: i64, den: i64) -> Ratio {
    Ratio { num, den }
}

/// `f` denotes `num / den`.
fn denotes(f: Fraction, num: i128, den: i128) -> bool {
    f.den > 0 && f.num * den == num * f.den
}

fn fraction_of(r: &KellyResult) -> Fraction {
    r.optimal_fraction.expect("fraction present")
}

#[test]
fn fixed_odds_even_money_with_edge() {
    let r = compute_fixed_odds(ratio(20, 10), ratio(60, 100));
    assert!(denotes(r.expected_value, 1, 5));
    assert!(denotes(fraction_of(&r), 1, 5));
    assert!(r.positive_ev);
}

#[test]
fn fixed_odds_break_even_at_half() {
    let r = compute_fixed_odds(ratio(2, 1), ratio(50, 100));
    assert_eq!(r.expected_value.num, 0);
    assert_eq!(fraction_of(&r).num, 0);
    assert!(!r.positive_ev);
}

#[test]
fn market_price_sixty_with_seventy_five_percent() {
    let r = compute_market_price(ratio(60, 100), ratio(75, 100));
    assert!(denotes(r.expected_value, 1, 4));
    // (b·p − q) / b with b = 2/3: (1/2 − 1/4) / (2/3) = 3/8.
    assert!(denotes(fraction_of(&r), 3, 8));
    assert!(r.positive_ev);
}

#[test]
fn fixed_odds_negative_edge_keeps_negative_fraction() {
    let r = compute_fixed_odds(ratio(15, 10), ratio(10, 100));
    assert!(denotes(r.expected_value, -17, 20));
    assert!(denotes(fraction_of(&r), -17, 10));
    assert!(!r.positive_ev);
    assert!(fraction_of(&r).num < 0);
}

#[test]
fn expected_value_formula_exact() {
    // p = 0.3, odds = 4: 0.3·3 − 0.7 = 0.2; fraction 0.2 / 3 = 1/15.
    let r = compute_fixed_odds(ratio(4, 1), ratio(3, 10));
    assert!(denotes(r.expected_value, 1, 5));
    assert!(denotes(fraction_of(&r), 1, 15));
    assert!(r.positive_ev);
}

#[test]
fn break_even_when_win_rate_is_reciprocal_of_odds() {
    let r = compute_fixed_odds(ratio(4, 1), ratio(1, 4));
    assert_eq!(r.expected_value.num, 0);
    assert_eq!(fraction_of(&r).num, 0);
    assert!(!r.positive_ev);
    let r = compute_fixed_odds(ratio(25, 10), ratio(40, 100));
    assert_eq!(r.expected_value.num, 0);
    assert_eq!(fraction_of(&r).num, 0);
}

#[test]
fn market_price_equals_fixed_odds_at_reciprocal() {
    let price = ratio(60, 100);
    let p = ratio(75, 100);
    let market = compute_market_price(price, p);
    let fixed = compute_fixed_odds(ratio(100, 60), p);
    assert_eq!(market, fixed);
    let market = compute_market_price(ratio(3, 10), ratio(1, 5));
    let fixed = compute_fixed_odds(ratio(10, 3), ratio(1, 5));
    assert_eq!(market, fixed);
}

#[test]
fn repeated_calls_give_identical_records() {
    let a = compute_fixed_odds(ratio(21, 10), ratio(55, 100));
    let b = compute_fixed_odds(ratio(21, 10), ratio(55, 100));
    assert_eq!(a, b);
    let c = compute_market_price(ratio(45, 100), ratio(50, 100));
    let d = compute_market_price(ratio(45, 100), ratio(50, 100));
    assert_eq!(c, d);
}

#[test]
fn market_price_of_one_has_no_fraction() {
    let r = compute_market_price(ratio(1, 1), ratio(1, 2));
    assert!(r.optimal_fraction.is_none());
    assert!(denotes(r.expected_value, -1, 2));
    assert!(!r.positive_ev);
}

#[test]
fn certain_win_gives_full_stake() {
    let r = compute_fixed_odds(ratio(3, 1), ratio(1, 1));
    assert!(denotes(fraction_of(&r), 1, 1));
    assert!(denotes(r.expected_value, 2, 1));
}

#[test]
fn certain_loss_loses_the_stake() {
    let r = compute_fixed_odds(ratio(3, 1), ratio(0, 1));
    assert!(denotes(r.expected_value, -1, 1));
    assert!(denotes(fraction_of(&r), -1, 2));
    assert!(!r.positive_ev);
}

#[test]
fn core_with_zero_net_odds() {
    let r = kelly_from_net_odds(ratio(0, 1), ratio(1, 2));
    assert!(r.optimal_fraction.is_none());
    assert!(denotes(r.expected_value, -1, 2));
}

#[test]
fn largest_inputs_do_not_overflow() {
    let r = compute_fixed_odds(ratio(i64::MAX, 1), ratio(i64::MAX - 1, i64::MAX));
    assert!(r.positive_ev);
    assert!(r.expected_value.den > 0);
    let r = compute_market_price(ratio(1, i64::MAX), ratio(0, i64::MAX));
    assert!(denotes(r.expected_value, -1, 1));
}
