use kelly::calculator::{evaluate_fixed_odds, evaluate_market_price, position_advice, PositionAdvice};
use kelly::rational::{Fraction, Ratio};
use kelly::validate::{
    read_capital, read_fixed_odds, read_market_price, validate_capital, validate_market_price,
    validate_odds, validate_probability, validate_win_rate, InputError,
};

fn ratio(num: i64, den: i64) -> Ratio {
    Ratio { num, den }
}

#[test]
fn win_rate_above_hundred_percent_rejected() {
    assert_eq!(validate_win_rate(ratio(150, 1)), Err(InputError::WinRateOutOfRange));
    assert_eq!(read_fixed_odds(b"2.0", b"150"), Err(InputError::WinRateOutOfRange));
    assert_eq!(read_fixed_odds(b"100", b"150"), Err(InputError::WinRateOutOfRange));
    assert!(read_fixed_odds(b"1.0", b"150").is_err());
    assert_eq!(evaluate_fixed_odds(b"2.0", b"150"), Err(InputError::WinRateOutOfRange));
}

#[test]
fn odds_must_exceed_one() {
    assert_eq!(validate_odds(ratio(1, 1)), Err(InputError::OddsTooLow));
    assert_eq!(validate_odds(ratio(9, 10)), Err(InputError::OddsTooLow));
    assert_eq!(validate_odds(ratio(11, 10)), Ok(ratio(11, 10)));
    assert_eq!(read_fixed_odds(b"1.0", b"60"), Err(InputError::OddsTooLow));
}

#[test]
fn win_rate_bounds_inclusive() {
    assert_eq!(validate_win_rate(ratio(0, 1)), Ok(ratio(0, 100)));
    assert_eq!(validate_win_rate(ratio(100, 1)), Ok(ratio(100, 100)));
    assert_eq!(validate_win_rate(ratio(-1, 10)), Err(InputError::WinRateOutOfRange));
    assert_eq!(validate_win_rate(ratio(1001, 10)), Err(InputError::WinRateOutOfRange));
}

#[test]
fn market_price_bounds() {
    assert_eq!(validate_market_price(ratio(0, 1)), Err(InputError::PriceOutOfRange));
    assert_eq!(validate_market_price(ratio(101, 1)), Err(InputError::PriceOutOfRange));
    assert_eq!(validate_market_price(ratio(100, 1)), Ok(ratio(100, 100)));
    assert_eq!(validate_market_price(ratio(60, 1)), Ok(ratio(60, 100)));
    assert_eq!(read_market_price(b"0", b"50"), Err(InputError::PriceOutOfRange));
}

#[test]
fn probability_bounds() {
    assert_eq!(validate_probability(ratio(75, 1)), Ok(ratio(75, 100)));
    assert_eq!(validate_probability(ratio(-5, 1)), Err(InputError::ProbabilityOutOfRange));
    assert_eq!(read_market_price(b"60", b"100.5"), Err(InputError::ProbabilityOutOfRange));
}

#[test]
fn capital_checks() {
    assert_eq!(validate_capital(ratio(0, 1)), Err(InputError::CapitalNotPositive));
    assert_eq!(validate_capital(ratio(10000, 1)), Ok(ratio(10000, 1)));
    assert_eq!(read_capital(b""), Ok(None));
    assert_eq!(read_capital(b"1000"), Ok(Some(ratio(1000, 1))));
    assert_eq!(read_capital(b"-5"), Err(InputError::CapitalNotPositive));
    assert_eq!(read_capital(b"lots"), Err(InputError::Parse));
}

#[test]
fn non_numeric_text_is_a_parse_error() {
    assert_eq!(read_fixed_odds(b"abc", b"60"), Err(InputError::Parse));
    assert_eq!(read_fixed_odds(b"2.0", b"sixty"), Err(InputError::Parse));
    assert_eq!(read_market_price(b"", b"60"), Err(InputError::Parse));
    assert_eq!(read_market_price(b"60", b"x"), Err(InputError::Parse));
}

#[test]
fn reading_converts_percentages() {
    assert_eq!(read_fixed_odds(b"2.0", b"60"), Ok((ratio(20, 10), ratio(60, 100))));
    assert_eq!(read_market_price(b"60", b"75"), Ok((ratio(60, 100), ratio(75, 100))));
}

#[test]
fn evaluate_from_text() {
    let r = evaluate_fixed_odds(b"2.0", b"60").unwrap();
    assert!(r.positive_ev);
    let f = r.optimal_fraction.unwrap();
    assert_eq!(f.num * 5, f.den);
    let m = evaluate_market_price(b"60", b"75").unwrap();
    let f = m.optimal_fraction.unwrap();
    assert_eq!(f.num * 8, f.den * 3);
    assert_eq!(evaluate_market_price(b"0", b"75"), Err(InputError::PriceOutOfRange));
}

#[test]
fn advice_for_fractions() {
    assert_eq!(position_advice(None), PositionAdvice::NoBet);
    assert_eq!(position_advice(Some(Fraction { num: 0, den: 3 })), PositionAdvice::NoBet);
    assert_eq!(position_advice(Some(Fraction { num: -1, den: 3 })), PositionAdvice::NoBet);
    assert_eq!(position_advice(Some(Fraction { num: 1, den: 5 })), PositionAdvice::Stake);
    assert_eq!(position_advice(Some(Fraction { num: 5, den: 5 })), PositionAdvice::Stake);
    assert_eq!(position_advice(Some(Fraction { num: 3, den: 2 })), PositionAdvice::AboveFull);
}

#[test]
fn negative_edge_advises_no_bet() {
    let r = evaluate_fixed_odds(b"1.5", b"10").unwrap();
    assert!(!r.positive_ev);
    assert_eq!(position_advice(r.optimal_fraction), PositionAdvice::NoBet);
}
