use vstd::prelude::*;

use crate::signal::{opposite, MarketSignal};

verus! {

/// The side of a one-unit strategy order.
#[derive(Clone, Copy, Debug, PartialEq, Eq, Hash, Structural)]
pub enum TradeSide {
    Buy,
    Sell,
    Hold,
}

/// The order that follows a signal.
pub open spec fn momentum_side(s: MarketSignal) -> TradeSide {
    match s {
        MarketSignal::Bullish => TradeSide::Buy,
        MarketSignal::Bearish => TradeSide::Sell,
        MarketSignal::Neutral => TradeSide::Hold,
    }
}

/// The order that goes against a signal.
pub open spec fn contrarian_side(s: MarketSignal) -> TradeSide {
    match s {
        MarketSignal::Bullish => TradeSide::Sell,
        MarketSignal::Bearish => TradeSide::Buy,
        MarketSignal::Neutral => TradeSide::Hold,
    }
}

/// The order on the other side.
pub open spec fn opposite_side(t: TradeSide) -> TradeSide {
    match t {
        TradeSide::Buy => TradeSide::Sell,
        TradeSide::Sell => TradeSide::Buy,
        TradeSide::Hold => TradeSide::Hold,
    }
}

/// Trading strategy: momentum (follow the trend), one unit order per signal.
pub fn momentum_strategy(signals: &[MarketSignal]) -> (r: Vec<TradeSide>)
    ensures
        r@.len() == signals@.len(),
        forall|i: int| 0 <= i < signals@.len() ==> #[trigger] r@[i] == momentum_side(signals@[i]),
{
    let mut r: Vec<TradeSide> = Vec::new();
    let mut i: usize = 0;
    while i < signals.len()
        invariant
            i <= signals@.len(),
            r@.len() == i,
            forall|j: int| 0 <= j < i ==> #[trigger] r@[j] == momentum_side(signals@[j]),
        decreases signals@.len() - i,
    {
        let side = match signals[i] {
            MarketSignal::Bullish => TradeSide::Buy,
            MarketSignal::Bearish => TradeSide::Sell,
            MarketSignal::Neutral => TradeSide::Hold,
        };
        r.push(side);
        i = i + 1;
    }
    r
}

/// Trading strategy: contrarian (opposite of signal), one unit order per signal.
pub fn contrarian_strategy(signals: &[MarketSignal]) -> (r: Vec<TradeSide>)
    ensures
        r@.len() == signals@.len(),
        forall|i: int|
            0 <= i < signals@.len() ==> #[trigger] r@[i] == contrarian_side(signals@[i]),
{
    let mut r: Vec<TradeSide> = Vec::new();
    let mut i: usize = 0;
    while i < signals.len()
        invariant
            i <= signals@.len(),
            r@.len() == i,
            forall|j: int| 0 <= j < i ==> #[trigger] r@[j] == contrarian_side(signals@[j]),
        decreases signals@.len() - i,
    {
        let side = match signals[i] {
            MarketSignal::Bullish => TradeSide::Sell,
            MarketSignal::Bearish => TradeSide::Buy,
            MarketSignal::Neutral => TradeSide::Hold,
        };
        r.push(side);
        i = i + 1;
    }
    r
}

/// Trading strategy: buy and hold. One buy order, then holds until `len`
/// orders stand; a `len` of 0 still gives the single buy.
pub fn buy_and_hold_strategy(len: usize) -> (r: Vec<TradeSide>)
    ensures
        r@.len() == if len == 0 {
            1
        } else {
            len as int
        },
        r@[0] == TradeSide::Buy,
        forall|i: int| 1 <= i < r@.len() ==> #[trigger] r@[i] == TradeSide::Hold,
{
    let mut actions: Vec<TradeSide> = vec![TradeSide::Buy];
    let mut k: usize = 1;
    while k < len
        invariant
            1 <= k,
            k <= len || len == 0 && k == 1,
            actions@.len() == k,
            actions@[0] == TradeSide::Buy,
            forall|i: int| 1 <= i < actions@.len() ==> #[trigger] actions@[i] == TradeSide::Hold,
        decreases len - k,
    {
        actions.push(TradeSide::Hold);
        k = k + 1;
    }
    actions
}

/// The contrarian strategy places, for every signal, the order opposite to the
/// momentum strategy's; equivalently, it follows the opposite signal.
pub proof fn lemma_contrarian_opposes_momentum(s: MarketSignal)
    ensures
        contrarian_side(s) == opposite_side(momentum_side(s)),
        contrarian_side(s) == momentum_side(opposite(s)),
{
}

/// Orders the two strategies give for the same history stand opposite to
/// each other, position by position.
pub proof fn lemma_strategies_mirror(
    signals: Seq<MarketSignal>,
    momentum: Seq<TradeSide>,
    contrarian: Seq<TradeSide>,
)
    requires
        momentum.len() == signals.len(),
        contrarian.len() == signals.len(),
        forall|i: int| 0 <= i < signals.len() ==> #[trigger] momentum[i] == momentum_side(signals[i]),
        forall|i: int|
            0 <= i < signals.len() ==> #[trigger] contrarian[i] == contrarian_side(signals[i]),
    ensures
        forall|i: int|
            0 <= i < signals.len() ==> #[trigger] contrarian[i] == opposite_side(momentum[i]),
{
    assert forall|i: int| 0 <= i < signals.len() implies #[trigger] contrarian[i] == opposite_side(
        momentum[i],
    ) by {
        lemma_contrarian_opposes_momentum(signals[i]);
    }
}

} // verus!
