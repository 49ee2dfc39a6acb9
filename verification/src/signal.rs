use vstd::prelude::*;

verus! {

/// Ternary market signal.
#[derive(Clone, Copy, Debug, PartialEq, Eq, Hash, Structural)]
pub enum MarketSignal {
    Bearish,
    Neutral,
    Bullish,
}

impl MarketSignal {
    /// The signal as a number of {-1, 0, +1}.
    pub open spec fn as_int(self) -> int {
        match self {
            MarketSignal::Bearish => -1,
            MarketSignal::Neutral => 0,
            MarketSignal::Bullish => 1,
        }
    }

    /// The signal that a number stands for: -1 is bearish, 0 neutral,
    /// and every other value bullish.
    pub open spec fn of_int(v: int) -> MarketSignal {
        if v == -1 {
            MarketSignal::Bearish
        } else if v == 0 {
            MarketSignal::Neutral
        } else {
            MarketSignal::Bullish
        }
    }

    pub fn to_i8(self) -> (r: i8)
        ensures
            r == self.as_int(),
    {
        match self {
            MarketSignal::Bearish => -1,
            MarketSignal::Neutral => 0,
            MarketSignal::Bullish => 1,
        }
    }

    pub fn from_i8(v: i8) -> (r: Self)
        ensures
            r == Self::of_int(v as int),
    {
        match v {
            -1 => MarketSignal::Bearish,
            0 => MarketSignal::Neutral,
            _ => MarketSignal::Bullish,
        }
    }

    /// Every signal, from bearish to bullish.
    pub fn all() -> (r: &'static [MarketSignal; 3])
        ensures
            r@ == seq![MarketSignal::Bearish, MarketSignal::Neutral, MarketSignal::Bullish],
    {
        &[MarketSignal::Bearish, MarketSignal::Neutral, MarketSignal::Bullish]
    }
}

/// The sum of a history of signals, each counted as -1, 0 or +1.
pub open spec fn signal_sum(s: Seq<MarketSignal>) -> int
    decreases s.len(),
{
    if s.len() == 0 {
        0
    } else {
        signal_sum(s.drop_last()) + s.last().as_int()
    }
}

/// How many times `x` occurs in `s`.
pub open spec fn count_signal(s: Seq<MarketSignal>, x: MarketSignal) -> nat
    decreases s.len(),
{
    if s.len() == 0 {
        0
    } else {
        count_signal(s.drop_last(), x) + if s.last() == x { 1nat } else { 0nat }
    }
}

/// The direction of a number: bullish above zero, bearish below, neutral at zero.
pub open spec fn sign_signal(x: int) -> MarketSignal {
    if x > 0 {
        MarketSignal::Bullish
    } else if x < 0 {
        MarketSignal::Bearish
    } else {
        MarketSignal::Neutral
    }
}

/// Counts the bullish and the bearish signals of a history.
fn count_bulls_and_bears(signals: &[MarketSignal]) -> (r: (usize, usize))
    ensures
        r.0 == count_signal(signals@, MarketSignal::Bullish),
        r.1 == count_signal(signals@, MarketSignal::Bearish),
{
    let mut bulls: usize = 0;
    let mut bears: usize = 0;
    let mut i: usize = 0;
    assert(signals@.take(0) =~= Seq::<MarketSignal>::empty());
    while i < signals.len()
        invariant
            i <= signals@.len(),
            bulls + bears <= i,
            bulls == count_signal(signals@.take(i as int), MarketSignal::Bullish),
            bears == count_signal(signals@.take(i as int), MarketSignal::Bearish),
        decreases signals@.len() - i,
    {
        assert(signals@.take(i + 1).drop_last() =~= signals@.take(i as int));
        match signals[i] {
            MarketSignal::Bullish => {
                bulls = bulls + 1;
            },
            MarketSignal::Bearish => {
                bears = bears + 1;
            },
            MarketSignal::Neutral => {},
        }
        i = i + 1;
    }
    assert(signals@.take(signals@.len() as int) =~= signals@);
    (bulls, bears)
}

/// Majority vote over a list of signals: the sign of their sum, neutral when
/// the list is empty or the votes balance.
pub fn aggregate_signal(signals: &[MarketSignal]) -> (r: MarketSignal)
    ensures
        r == sign_signal(signal_sum(signals@)),
{
    if signals.len() == 0 {
        return MarketSignal::Neutral;
    }
    let (bulls, bears) = count_bulls_and_bears(signals);
    proof {
        lemma_sum_is_bulls_minus_bears(signals@);
    }
    if bulls > bears {
        MarketSignal::Bullish
    } else if bulls < bears {
        MarketSignal::Bearish
    } else {
        MarketSignal::Neutral
    }
}

/// Aggregate market signal of a history: the sign of the sum of its signals,
/// that is the majority direction of the history.
pub fn aggregate_history(signals: &[MarketSignal]) -> (r: MarketSignal)
    ensures
        r == sign_signal(signal_sum(signals@)),
{
    let (bulls, bears) = count_bulls_and_bears(signals);
    proof {
        lemma_sum_is_bulls_minus_bears(signals@);
    }
    let sign: i8 = if bulls > bears {
        1
    } else if bulls < bears {
        -1
    } else {
        0
    };
    MarketSignal::from_i8(sign)
}

/// The signal pointing the other way.
pub open spec fn opposite(s: MarketSignal) -> MarketSignal {
    match s {
        MarketSignal::Bearish => MarketSignal::Bullish,
        MarketSignal::Neutral => MarketSignal::Neutral,
        MarketSignal::Bullish => MarketSignal::Bearish,
    }
}

/// Converting a signal to its number and back gives the signal again, and a
/// number of {-1, 0, +1} converted to a signal and back gives the number again.
pub proof fn lemma_signal_number_round_trip(s: MarketSignal, v: int)
    ensures
        MarketSignal::of_int(s.as_int()) == s,
        -1 <= v <= 1 ==> MarketSignal::of_int(v).as_int() == v,
{
}

/// The sum of a history is the number of bullish signals minus the number of
/// bearish ones.
pub proof fn lemma_sum_is_bulls_minus_bears(s: Seq<MarketSignal>)
    ensures
        signal_sum(s) == count_signal(s, MarketSignal::Bullish) - count_signal(
            s,
            MarketSignal::Bearish,
        ),
    decreases s.len(),
{
    if s.len() > 0 {
        lemma_sum_is_bulls_minus_bears(s.drop_last());
    }
}

/// Aggregation is a majority vote: the aggregate is bullish exactly when
/// bullish signals outnumber bearish ones, bearish exactly when bearish ones
/// outnumber bullish ones, and neutral when they balance.
pub proof fn lemma_aggregate_is_majority_vote(s: Seq<MarketSignal>)
    ensures
        sign_signal(signal_sum(s)) == MarketSignal::Bullish <==> count_signal(
            s,
            MarketSignal::Bullish,
        ) > count_signal(s, MarketSignal::Bearish),
        sign_signal(signal_sum(s)) == MarketSignal::Bearish <==> count_signal(
            s,
            MarketSignal::Bearish,
        ) > count_signal(s, MarketSignal::Bullish),
        sign_signal(signal_sum(s)) == MarketSignal::Neutral <==> count_signal(
            s,
            MarketSignal::Bullish,
        ) == count_signal(s, MarketSignal::Bearish),
{
    lemma_sum_is_bulls_minus_bears(s);
}

/// The aggregate depends only on how many signals of each kind a history
/// holds, not on their order.
pub proof fn lemma_aggregate_ignores_order(s: Seq<MarketSignal>, t: Seq<MarketSignal>)
    requires
        forall|x: MarketSignal| count_signal(s, x) == count_signal(t, x),
    ensures
        sign_signal(signal_sum(s)) == sign_signal(signal_sum(t)),
{
    lemma_sum_is_bulls_minus_bears(s);
    lemma_sum_is_bulls_minus_bears(t);
    assert(count_signal(s, MarketSignal::Bullish) == count_signal(t, MarketSignal::Bullish));
    assert(count_signal(s, MarketSignal::Bearish) == count_signal(t, MarketSignal::Bearish));
}

/// A single added signal cannot flip the aggregate from one direction to the
/// other: at most it brings a bullish or bearish history to neutral.
pub proof fn lemma_one_signal_cannot_flip(s: Seq<MarketSignal>, x: MarketSignal)
    ensures
        sign_signal(signal_sum(s)) == MarketSignal::Bullish ==> sign_signal(
            signal_sum(s.push(x)),
        ) != MarketSignal::Bearish,
        sign_signal(signal_sum(s)) == MarketSignal::Bearish ==> sign_signal(
            signal_sum(s.push(x)),
        ) != MarketSignal::Bullish,
{
    assert(s.push(x).drop_last() =~= s);
}

} // verus!
