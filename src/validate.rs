//! Domain checks that stand between the user's numbers and the engine.
//!
//! Probabilities and prices arrive as percentages; an accepted one is
//! handed on as a value in `[0, 1]`.
use vstd::prelude::*;
use crate::rational::{Ratio, Rational};
use crate::engine::is_probability;
use crate::decimal::{decimal_of, parse_decimal};

verus! {

/// Why an input was not accepted.
#[derive(Clone, Copy, Debug, PartialEq, Eq, Structural)]
pub enum InputError {
    /// The text is not a number.
    Parse,
    /// Decimal odds must be above one.
    OddsTooLow,
    /// A win rate must lie in `[0, 100]` percent.
    WinRateOutOfRange,
    /// A market price must lie in `(0, 100]` percent.
    PriceOutOfRange,
    /// A probability must lie in `[0, 100]` percent.
    ProbabilityOutOfRange,
    /// A capital must be positive.
    CapitalNotPositive,
}

/// The largest percentage denominator whose hundredfold fits an `i64`.
pub const MAX_PERCENT_DEN: i64 = 92233720368547758;

/// `percent / 100`, over a hundredfold denominator.
pub open spec fn percent_to_probability(percent: Ratio) -> Ratio {
    Ratio { num: percent.num, den: (percent.den * 100) as i64 }
}

/// A percentage in `[0, 100]`.
pub open spec fn percent_in_closed_range(percent: Ratio) -> bool {
    0 <= percent.num <= 100 * percent.den
}

/// A percentage in `(0, 100]`.
pub open spec fn percent_in_open_closed_range(percent: Ratio) -> bool {
    0 < percent.num <= 100 * percent.den
}

/// A percentage with a denominator that can be scaled by a hundred.
pub open spec fn is_percent(percent: Ratio) -> bool {
    percent.wf() && percent.den <= MAX_PERCENT_DEN
}

fn to_probability(percent: Ratio) -> (r: Ratio)
    requires
        is_percent(percent),
        percent_in_closed_range(percent),
    ensures
        r == percent_to_probability(percent),
        is_probability(r),
        r@.eqv(percent@.over(Rational::whole(100))),
{
    Ratio { num: percent.num, den: percent.den * 100 }
}

/// Accepts decimal odds above one.
pub fn validate_odds(odds: Ratio) -> (r: Result<Ratio, InputError>)
    requires
        odds.wf(),
    ensures
        r == (if odds.num > odds.den {
            Ok::<Ratio, InputError>(odds)
        } else {
            Err(InputError::OddsTooLow)
        }),
{
    if odds.num > odds.den {
        Ok(odds)
    } else {
        Err(InputError::OddsTooLow)
    }
}

/// Accepts a win rate in `[0, 100]` percent and returns it as a probability.
pub fn validate_win_rate(percent: Ratio) -> (r: Result<Ratio, InputError>)
    requires
        is_percent(percent),
    ensures
        r == (if percent_in_closed_range(percent) {
            Ok::<Ratio, InputError>(percent_to_probability(percent))
        } else {
            Err(InputError::WinRateOutOfRange)
        }),
        r matches Ok(p) ==> is_probability(p) && p@.eqv(percent@.over(Rational::whole(100))),
{
    if 0 <= percent.num && percent.num as i128 <= 100 * percent.den as i128 {
        Ok(to_probability(percent))
    } else {
        Err(InputError::WinRateOutOfRange)
    }
}

/// Accepts a market price in `(0, 100]` percent and returns it as a value in
/// `(0, 1]`.
pub fn validate_market_price(percent: Ratio) -> (r: Result<Ratio, InputError>)
    requires
        is_percent(percent),
    ensures
        r == (if percent_in_open_closed_range(percent) {
            Ok::<Ratio, InputError>(percent_to_probability(percent))
        } else {
            Err(InputError::PriceOutOfRange)
        }),
        r matches Ok(p) ==> p.wf() && 0 < p.num <= p.den && p@.eqv(
            percent@.over(Rational::whole(100)),
        ),
{
    if 0 < percent.num && percent.num as i128 <= 100 * percent.den as i128 {
        Ok(to_probability(percent))
    } else {
        Err(InputError::PriceOutOfRange)
    }
}

/// Accepts the user's probability in `[0, 100]` percent and returns it as a
/// probability.
pub fn validate_probability(percent: Ratio) -> (r: Result<Ratio, InputError>)
    requires
        is_percent(percent),
    ensures
        r == (if percent_in_closed_range(percent) {
            Ok::<Ratio, InputError>(percent_to_probability(percent))
        } else {
            Err(InputError::ProbabilityOutOfRange)
        }),
        r matches Ok(p) ==> is_probability(p) && p@.eqv(percent@.over(Rational::whole(100))),
{
    if 0 <= percent.num && percent.num as i128 <= 100 * percent.den as i128 {
        Ok(to_probability(percent))
    } else {
        Err(InputError::ProbabilityOutOfRange)
    }
}

/// Accepts a positive capital.
pub fn validate_capital(capital: Ratio) -> (r: Result<Ratio, InputError>)
    requires
        capital.wf(),
    ensures
        r == (if capital.num > 0 {
            Ok::<Ratio, InputError>(capital)
        } else {
            Err(InputError::CapitalNotPositive)
        }),
{
    if capital.num > 0 {
        Ok(capital)
    } else {
        Err(InputError::CapitalNotPositive)
    }
}

/// The outcome of reading fixed-odds input: odds first, then the win rate
/// as a percentage.
pub open spec fn fixed_odds_input(odds_text: Seq<u8>, win_rate_text: Seq<u8>) -> Result<
    (Ratio, Ratio),
    InputError,
> {
    match decimal_of(odds_text) {
        None => Err(InputError::Parse),
        Some(odds) => if odds.num <= odds.den {
            Err(InputError::OddsTooLow)
        } else {
            match decimal_of(win_rate_text) {
                None => Err(InputError::Parse),
                Some(percent) => if percent_in_closed_range(percent) {
                    Ok((odds, percent_to_probability(percent)))
                } else {
                    Err(InputError::WinRateOutOfRange)
                },
            }
        },
    }
}

/// The outcome of reading market input: the price as a percentage, then the
/// user's probability as a percentage.
pub open spec fn market_price_input(price_text: Seq<u8>, probability_text: Seq<u8>) -> Result<
    (Ratio, Ratio),
    InputError,
> {
    match decimal_of(price_text) {
        None => Err(InputError::Parse),
        Some(price) => if !percent_in_open_closed_range(price) {
            Err(InputError::PriceOutOfRange)
        } else {
            match decimal_of(probability_text) {
                None => Err(InputError::Parse),
                Some(percent) => if percent_in_closed_range(percent) {
                    Ok((percent_to_probability(price), percent_to_probability(percent)))
                } else {
                    Err(InputError::ProbabilityOutOfRange)
                },
            }
        },
    }
}

/// The outcome of reading an optional capital: empty text means none.
pub open spec fn capital_input(text: Seq<u8>) -> Result<Option<Ratio>, InputError> {
    if text.len() == 0 {
        Ok(None)
    } else {
        match decimal_of(text) {
            None => Err(InputError::Parse),
            Some(capital) => if capital.num > 0 {
                Ok(Some(capital))
            } else {
                Err(InputError::CapitalNotPositive)
            },
        }
    }
}

fn parse_number(text: &[u8]) -> (r: Result<Ratio, InputError>)
    ensures
        r matches Ok(v) ==> decimal_of(text@) == Some(v) && is_percent(v),
        r is Err ==> decimal_of(text@) is None && r == Err::<Ratio, InputError>(InputError::Parse),
{
    match parse_decimal(text) {
        Some(v) => Ok(v),
        None => Err(InputError::Parse),
    }
}

/// Reads decimal odds and a win-rate percentage. A win rate outside
/// `[0, 100]` is never accepted, whatever the odds.
pub fn read_fixed_odds(odds_text: &[u8], win_rate_text: &[u8]) -> (r: Result<(Ratio, Ratio), InputError>)
    ensures
        r == fixed_odds_input(odds_text@, win_rate_text@),
        r matches Ok((odds, win_rate)) ==> odds.wf() && odds.num > odds.den && is_probability(win_rate),
        decimal_of(win_rate_text@) matches Some(p) && !percent_in_closed_range(p) ==> r is Err,
{
    let odds = parse_number(odds_text)?;
    let odds = validate_odds(odds)?;
    let percent = parse_number(win_rate_text)?;
    let win_rate = validate_win_rate(percent)?;
    Ok((odds, win_rate))
}

/// Reads a market-price percentage and a probability percentage.
pub fn read_market_price(price_text: &[u8], probability_text: &[u8]) -> (r: Result<
    (Ratio, Ratio),
    InputError,
>)
    ensures
        r == market_price_input(price_text@, probability_text@),
        r matches Ok((price, p)) ==> price.wf() && 0 < price.num <= price.den && is_probability(p),
{
    let price = parse_number(price_text)?;
    let price = validate_market_price(price)?;
    let percent = parse_number(probability_text)?;
    let your_probability = validate_probability(percent)?;
    Ok((price, your_probability))
}

/// Reads an optional capital. A rejected capital is reported, and callers
/// go on without one.
pub fn read_capital(text: &[u8]) -> (r: Result<Option<Ratio>, InputError>)
    ensures
        r == capital_input(text@),
        r matches Ok(Some(c)) ==> c.wf() && c.num > 0,
{
    if text.len() == 0 {
        return Ok(None);
    }
    let capital = parse_number(text)?;
    let capital = validate_capital(capital)?;
    Ok(Some(capital))
}

} // verus!
