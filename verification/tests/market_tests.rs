use ternary_econ::{imbalance, price_pressure, MarketSignal};

#[test]
fn test_supply_demand_pressure() {
    // High demand, low supply: bullish.
    assert_eq!(price_pressure(MarketSignal::Bearish, MarketSignal::Bullish), MarketSignal::Bullish);
}

#[test]
fn test_supply_demand_imbalance() {
    assert_eq!(imbalance(MarketSignal::Bearish, MarketSignal::Bullish), 2); // 1 - (-1)
}

#[test]
fn test_pressure_table() {
    assert_eq!(price_pressure(MarketSignal::Bullish, MarketSignal::Bearish), MarketSignal::Bearish);
    assert_eq!(price_pressure(MarketSignal::Neutral, MarketSignal::Bearish), MarketSignal::Bearish);
    assert_eq!(price_pressure(MarketSignal::Bullish, MarketSignal::Neutral), MarketSignal::Bearish);
    assert_eq!(price_pressure(MarketSignal::Neutral, MarketSignal::Neutral), MarketSignal::Neutral);
    assert_eq!(price_pressure(MarketSignal::Bullish, MarketSignal::Bullish), MarketSignal::Neutral);
    assert_eq!(price_pressure(MarketSignal::Neutral, MarketSignal::Bullish), MarketSignal::Bullish);
    assert_eq!(price_pressure(MarketSignal::Bearish, MarketSignal::Neutral), MarketSignal::Bullish);
}

#[test]
fn test_imbalance_range_and_swap() {
    for &s in MarketSignal::all().iter() {
        for &d in MarketSignal::all().iter() {
            let i = imbalance(s, d);
            assert!((-2..=2).contains(&i));
            assert_eq!(imbalance(d, s), -i);
            assert_eq!(price_pressure(s, d), MarketSignal::from_i8(i.signum()));
            assert_eq!(price_pressure(s, d) == MarketSignal::Neutral, s == d);
        }
    }
    assert_eq!(imbalance(MarketSignal::Bullish, MarketSignal::Bearish), -2);
}
