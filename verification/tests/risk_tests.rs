use ternary_econ::{assess_readings, generate_signal, MarketSignal, PortfolioOptimizer, RiskLevel, RiskReadings, RiskVerdict};

/// Readings of a portfolio of `(volatility, expected_return)` assets against a limit.
fn readings(assets: &[(f64, f64)], max_volatility: f64) -> RiskReadings {
    let max_vol = assets.iter().map(|a| a.0).fold(0.0_f64, f64::max);
    let avg_return = if assets.is_empty() {
        0.0
    } else {
        assets.iter().map(|a| a.1).sum::<f64>() / assets.len() as f64
    };
    RiskReadings {
        volatility_above_limit: max_vol > max_volatility,
        volatility_above_double: max_vol > max_volatility * 2.0,
        volatility_above_quadruple: max_vol > max_volatility * 4.0,
        return_negative: avg_return < 0.0,
        return_low: avg_return < -0.2,
    }
}

#[test]
fn test_risk_assessment_accept() {
    let r = readings(&[(0.1, 0.05)], 0.5);
    assert_eq!(assess_readings(RiskLevel::Avoid, &r), RiskVerdict::Accept);
}

#[test]
fn test_risk_assessment_reject() {
    // Volatility 0.9 > max 0.5
    let r = readings(&[(0.9, 0.05)], 0.5);
    match assess_readings(RiskLevel::Avoid, &r) {
        RiskVerdict::Reject(_) => {},
        _ => panic!("Expected Reject"),
    }
}

#[test]
fn test_risk_assessment_negative_return() {
    let r = readings(&[(0.1, -0.5)], 0.5);
    match assess_readings(RiskLevel::Avoid, &r) {
        RiskVerdict::Reject(_) => {},
        _ => panic!("Expected Reject for negative return"),
    }
}

#[test]
fn test_verdict_messages() {
    let r = readings(&[(0.9, 0.05)], 0.5);
    assert_eq!(
        assess_readings(RiskLevel::Avoid, &r),
        RiskVerdict::Reject("Volatility too high for risk-averse profile".to_string())
    );
    assert_eq!(assess_readings(RiskLevel::Neutral, &r), RiskVerdict::Accept);
    let r = readings(&[(0.1, -0.5)], 0.5);
    assert_eq!(
        assess_readings(RiskLevel::Avoid, &r),
        RiskVerdict::Reject("Negative expected return".to_string())
    );
    assert_eq!(
        assess_readings(RiskLevel::Neutral, &r),
        RiskVerdict::Caution("Low expected returns".to_string())
    );
    assert_eq!(assess_readings(RiskLevel::Embrace, &r), RiskVerdict::Accept);
    let r = readings(&[(1.5, 0.0)], 0.3);
    assert_eq!(
        assess_readings(RiskLevel::Neutral, &r),
        RiskVerdict::Reject("Volatility exceeds 2x threshold".to_string())
    );
    assert_eq!(
        assess_readings(RiskLevel::Embrace, &r),
        RiskVerdict::Caution("Extreme volatility".to_string())
    );
}

#[test]
fn test_bolder_profiles_accept_more() {
    for &(vol, ret) in &[(0.1, 0.05), (0.6, 0.1), (1.1, -0.1), (2.5, -0.5), (0.2, -0.05)] {
        let r = readings(&[(vol, ret)], 0.5);
        let avoid = assess_readings(RiskLevel::Avoid, &r) == RiskVerdict::Accept;
        let neutral = assess_readings(RiskLevel::Neutral, &r) == RiskVerdict::Accept;
        let embrace = assess_readings(RiskLevel::Embrace, &r) == RiskVerdict::Accept;
        assert!(!avoid || neutral);
        assert!(!neutral || embrace);
    }
}

#[test]
fn test_portfolio_optimizer_new() {
    let opt = PortfolioOptimizer::new(RiskLevel::Embrace);
    assert_eq!(opt.risk_level, RiskLevel::Embrace);
}

#[test]
fn test_generate_signal_table() {
    assert_eq!(generate_signal(RiskLevel::Avoid, MarketSignal::Bullish), MarketSignal::Neutral);
    assert_eq!(generate_signal(RiskLevel::Avoid, MarketSignal::Neutral), MarketSignal::Neutral);
    assert_eq!(generate_signal(RiskLevel::Avoid, MarketSignal::Bearish), MarketSignal::Bearish);
    assert_eq!(generate_signal(RiskLevel::Neutral, MarketSignal::Bullish), MarketSignal::Bullish);
    assert_eq!(generate_signal(RiskLevel::Neutral, MarketSignal::Neutral), MarketSignal::Neutral);
    assert_eq!(generate_signal(RiskLevel::Neutral, MarketSignal::Bearish), MarketSignal::Bearish);
    assert_eq!(generate_signal(RiskLevel::Embrace, MarketSignal::Bullish), MarketSignal::Bullish);
    assert_eq!(generate_signal(RiskLevel::Embrace, MarketSignal::Neutral), MarketSignal::Bullish);
    assert_eq!(generate_signal(RiskLevel::Embrace, MarketSignal::Bearish), MarketSignal::Bearish);
}

#[test]
fn test_signal_grows_with_risk_appetite() {
    for &m in MarketSignal::all().iter() {
        let a = generate_signal(RiskLevel::Avoid, m).to_i8();
        let n = generate_signal(RiskLevel::Neutral, m).to_i8();
        let e = generate_signal(RiskLevel::Embrace, m).to_i8();
        assert!(a <= n && n <= e);
    }
}

#[test]
fn test_verdicts_ordered_by_risk_appetite() {
    let rank = |v: RiskVerdict| match v {
        RiskVerdict::Accept => 0,
        RiskVerdict::Caution(_) => 1,
        RiskVerdict::Reject(_) => 2,
    };
    for &(vol, ret) in &[(0.1, 0.05), (0.6, 0.1), (1.1, -0.1), (2.5, -0.5), (0.2, -0.3), (0.9, -0.3)] {
        let r = readings(&[(vol, ret)], 0.5);
        let avoid = rank(assess_readings(RiskLevel::Avoid, &r));
        let neutral = rank(assess_readings(RiskLevel::Neutral, &r));
        let embrace = rank(assess_readings(RiskLevel::Embrace, &r));
        assert!(embrace <= neutral && neutral <= avoid);
        assert!(embrace < 2 && avoid != 1);
    }
}
