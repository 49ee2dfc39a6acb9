use vstd::prelude::*;

use crate::risk::RiskLevel;
use crate::signal::MarketSignal;

verus! {

/// The signal that an agent of the given risk tolerance takes from the
/// market's signal, as a number: risk-averse agents ignore bullish signals,
/// risk-seeking agents turn every non-bearish signal bullish.
pub open spec fn adjusted_int(risk: RiskLevel, market: MarketSignal) -> int {
    match (risk, market) {
        (_, MarketSignal::Bearish) => -1,
        (RiskLevel::Avoid, _) => 0,
        (RiskLevel::Neutral, MarketSignal::Neutral) => 0,
        (RiskLevel::Neutral, MarketSignal::Bullish) => 1,
        (RiskLevel::Embrace, _) => 1,
    }
}

/// The signal that an agent of the given risk tolerance takes from the market.
pub open spec fn adjusted_signal(risk: RiskLevel, market: MarketSignal) -> MarketSignal {
    MarketSignal::of_int(adjusted_int(risk, market))
}

/// Generates an agent's signal from market data: risk-seeking agents amplify
/// signals, risk-averse agents dampen them.
pub fn generate_signal(risk: RiskLevel, market_signal: MarketSignal) -> (r: MarketSignal)
    ensures
        r == adjusted_signal(risk, market_signal),
{
    let base = market_signal.to_i8();
    let adjusted: i8 = match risk {
        RiskLevel::Avoid => {
            if base > 0 {
                0
            } else {
                base
            }
        },
        RiskLevel::Neutral => base,
        RiskLevel::Embrace => {
            if base >= 0 {
                1
            } else {
                base
            }
        },
    };
    MarketSignal::from_i8(adjusted)
}

/// A bolder agent never takes a more bearish signal than a more cautious one
/// from the same market, and a risk-neutral agent follows the market.
pub proof fn lemma_signal_grows_with_risk_appetite(market: MarketSignal)
    ensures
        adjusted_signal(RiskLevel::Avoid, market).as_int() <= adjusted_signal(
            RiskLevel::Neutral,
            market,
        ).as_int(),
        adjusted_signal(RiskLevel::Neutral, market).as_int() <= adjusted_signal(
            RiskLevel::Embrace,
            market,
        ).as_int(),
        adjusted_signal(RiskLevel::Neutral, market) == market,
{
}

/// A more bullish market never gives an agent a more bearish signal.
pub proof fn lemma_signal_follows_market(risk: RiskLevel, m1: MarketSignal, m2: MarketSignal)
    requires
        m1.as_int() <= m2.as_int(),
    ensures
        adjusted_signal(risk, m1).as_int() <= adjusted_signal(risk, m2).as_int(),
{
}

/// Every agent passes a bearish market signal on unchanged; a risk-averse
/// agent is never bullish, and a risk-seeking one never neutral.
pub proof fn lemma_signal_extremes(risk: RiskLevel, market: MarketSignal)
    ensures
        adjusted_signal(risk, MarketSignal::Bearish) == MarketSignal::Bearish,
        adjusted_signal(RiskLevel::Avoid, market) != MarketSignal::Bullish,
        adjusted_signal(RiskLevel::Embrace, market) != MarketSignal::Neutral,
{
}

} // verus!
