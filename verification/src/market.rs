use vstd::prelude::*;

use crate::signal::{opposite, sign_signal, MarketSignal};

verus! {

/// Supply-demand imbalance score, from -2 to 2: the demand signal minus the
/// supply signal.
pub fn imbalance(supply: MarketSignal, demand: MarketSignal) -> (r: i8)
    ensures
        r == demand.as_int() - supply.as_int(),
        -2 <= r <= 2,
{
    demand.to_i8() - supply.to_i8()
}

/// Price pressure: bullish when demand exceeds supply, bearish when supply
/// exceeds demand, neutral when they match.
pub fn price_pressure(supply: MarketSignal, demand: MarketSignal) -> (r: MarketSignal)
    ensures
        r == sign_signal(demand.as_int() - supply.as_int()),
{
    let net = demand.to_i8() - supply.to_i8();
    let clamped: i8 = if net < -1 {
        -1
    } else if net > 1 {
        1
    } else {
        net
    };
    MarketSignal::from_i8(clamped)
}

/// Exchanging supply and demand negates the imbalance and turns the price
/// pressure the other way.
pub proof fn lemma_swap_supply_demand(supply: MarketSignal, demand: MarketSignal)
    ensures
        supply.as_int() - demand.as_int() == -(demand.as_int() - supply.as_int()),
        sign_signal(supply.as_int() - demand.as_int()) == opposite(
            sign_signal(demand.as_int() - supply.as_int()),
        ),
{
}

/// Price pressure is neutral exactly when the imbalance is zero, that is when
/// supply and demand carry the same signal.
pub proof fn lemma_balanced_market_has_no_pressure(supply: MarketSignal, demand: MarketSignal)
    ensures
        sign_signal(demand.as_int() - supply.as_int()) == MarketSignal::Neutral <==> supply
            == demand,
{
}

} // verus!
