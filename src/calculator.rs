//! From the user's text to a Kelly record, and the sizing advice shown for it.
use vstd::prelude::*;
use crate::rational::{Fraction, Ratio};
use crate::engine::{
    compute_fixed_odds, compute_market_price, kelly_result, net_odds_of_odds, net_odds_of_price,
    KellyResult,
};
use crate::validate::{
    fixed_odds_input, market_price_input, read_fixed_odds, read_market_price, InputError,
};

verus! {

/// How large a stake the Kelly fraction suggests.
#[derive(Clone, Copy, Debug, PartialEq, Eq, Structural)]
pub enum PositionAdvice {
    /// The fraction is absent, zero or negative: do not bet.
    NoBet,
    /// The fraction lies in `(0, 1]`: stake that share of capital.
    Stake,
    /// The fraction exceeds one: a full Kelly stake or more, with leverage.
    AboveFull,
}

/// Reads fixed-odds text (odds, then win-rate percentage) and computes the
/// Kelly record, or reports the first input that was rejected.
pub fn evaluate_fixed_odds(odds_text: &[u8], win_rate_text: &[u8]) -> (r: Result<
    KellyResult,
    InputError,
>)
    ensures
        r matches Ok(res) ==> fixed_odds_input(odds_text@, win_rate_text@) matches Ok((odds, p))
            && res == kelly_result(net_odds_of_odds(odds), p),
        r matches Err(e) ==> fixed_odds_input(odds_text@, win_rate_text@) == Err::<
            (Ratio, Ratio),
            InputError,
        >(e),
{
    let (odds, win_rate) = read_fixed_odds(odds_text, win_rate_text)?;
    Ok(compute_fixed_odds(odds, win_rate))
}

/// Reads market text (price percentage, then probability percentage) and
/// computes the Kelly record, or reports the first input that was rejected.
pub fn evaluate_market_price(price_text: &[u8], probability_text: &[u8]) -> (r: Result<
    KellyResult,
    InputError,
>)
    ensures
        r matches Ok(res) ==> market_price_input(price_text@, probability_text@) matches Ok(
            (price, p),
        ) && res == kelly_result(net_odds_of_price(price), p),
        r matches Err(e) ==> market_price_input(price_text@, probability_text@) == Err::<
            (Ratio, Ratio),
            InputError,
        >(e),
{
    let (price, your_probability) = read_market_price(price_text, probability_text)?;
    Ok(compute_market_price(price, your_probability))
}

/// The advice for a Kelly fraction: no bet at or below zero (or where the
/// fraction is absent), a leveraged stake above one, a plain stake between.
pub fn position_advice(fraction: Option<Fraction>) -> (r: PositionAdvice)
    requires
        fraction matches Some(f) ==> f.wf(),
    ensures
        r == (match fraction {
            None => PositionAdvice::NoBet,
            Some(f) => if f.num <= 0 {
                PositionAdvice::NoBet
            } else if f.num > f.den {
                PositionAdvice::AboveFull
            } else {
                PositionAdvice::Stake
            },
        }),
{
    match fraction {
        None => PositionAdvice::NoBet,
        Some(f) => if f.num <= 0 {
            PositionAdvice::NoBet
        } else if f.num > f.den {
            PositionAdvice::AboveFull
        } else {
            PositionAdvice::Stake
        },
    }
}

} // verus!
