use vstd::prelude::*;

verus! {

/// Risk assessment level.
#[derive(Clone, Copy, Debug, PartialEq, Eq, Hash, Structural)]
pub enum RiskLevel {
    Avoid,
    Neutral,
    Embrace,
}

/// Risk assessment verdict.
#[derive(Clone, Debug, PartialEq, Eq)]
pub enum RiskVerdict {
    Accept,
    Caution(String),
    Reject(String),
}

/// What the risk rules read of a portfolio: how its highest volatility
/// compares with the profile's volatility limit, and how its average
/// expected return compares with the return floors.
#[derive(Clone, Copy, Debug, PartialEq, Eq, Structural)]
pub struct RiskReadings {
    /// The highest volatility exceeds the limit.
    pub volatility_above_limit: bool,
    /// The highest volatility exceeds twice the limit.
    pub volatility_above_double: bool,
    /// The highest volatility exceeds four times the limit.
    pub volatility_above_quadruple: bool,
    /// The average expected return is below zero.
    pub return_negative: bool,
    /// The average expected return is below -0.2.
    pub return_low: bool,
}

impl RiskReadings {
    /// The readings agree with each other, as readings taken against a
    /// non-negative limit do: above four times the limit is above twice the
    /// limit, which is above the limit, and a return below -0.2 is negative.
    pub open spec fn consistent(self) -> bool {
        &&& self.volatility_above_quadruple ==> self.volatility_above_double
        &&& self.volatility_above_double ==> self.volatility_above_limit
        &&& self.return_low ==> self.return_negative
    }
}

/// Whether a profile accepts a portfolio with the given readings.
pub open spec fn accepts(level: RiskLevel, readings: RiskReadings) -> bool {
    match level {
        RiskLevel::Avoid => !readings.volatility_above_limit && !readings.return_negative,
        RiskLevel::Neutral => !readings.volatility_above_double && !readings.return_low,
        RiskLevel::Embrace => !readings.volatility_above_quadruple,
    }
}

/// How severe a profile's verdict on a portfolio with the given readings is:
/// 0 to accept, 1 to warn, 2 to reject.
pub open spec fn severity(level: RiskLevel, readings: RiskReadings) -> int {
    match level {
        RiskLevel::Avoid => if readings.volatility_above_limit || readings.return_negative {
            2
        } else {
            0
        },
        RiskLevel::Neutral => if readings.volatility_above_double {
            2
        } else if readings.return_low {
            1
        } else {
            0
        },
        RiskLevel::Embrace => if readings.volatility_above_quadruple {
            1
        } else {
            0
        },
    }
}

/// Orders verdicts by severity: acceptance lowest, then caution, then rejection.
pub open spec fn verdict_rank(v: RiskVerdict) -> int {
    match v {
        RiskVerdict::Accept => 0,
        RiskVerdict::Caution(_) => 1,
        RiskVerdict::Reject(_) => 2,
    }
}

/// The verdict is a rejection with the given message.
pub open spec fn is_reject_with(v: RiskVerdict, msg: Seq<char>) -> bool {
    v matches RiskVerdict::Reject(m) && m@ == msg
}

/// The verdict is a caution with the given message.
pub open spec fn is_caution_with(v: RiskVerdict, msg: Seq<char>) -> bool {
    v matches RiskVerdict::Caution(m) && m@ == msg
}

/// Assesses a portfolio under a risk profile, by tiered thresholds:
/// a risk-averse profile rejects volatility above the limit and then negative
/// returns; a neutral one rejects volatility above twice the limit and warns
/// of returns below -0.2; a risk-seeking one only warns of volatility above
/// four times the limit.
pub fn assess_readings(level: RiskLevel, readings: &RiskReadings) -> (r: RiskVerdict)
    ensures
        (r is Accept) <==> accepts(level, *readings),
        verdict_rank(r) == severity(level, *readings),
        level == RiskLevel::Avoid ==> {
            if readings.volatility_above_limit {
                is_reject_with(r, "Volatility too high for risk-averse profile"@)
            } else if readings.return_negative {
                is_reject_with(r, "Negative expected return"@)
            } else {
                r is Accept
            }
        },
        level == RiskLevel::Neutral ==> {
            if readings.volatility_above_double {
                is_reject_with(r, "Volatility exceeds 2x threshold"@)
            } else if readings.return_low {
                is_caution_with(r, "Low expected returns"@)
            } else {
                r is Accept
            }
        },
        level == RiskLevel::Embrace ==> {
            if readings.volatility_above_quadruple {
                is_caution_with(r, "Extreme volatility"@)
            } else {
                r is Accept
            }
        },
{
    match level {
        RiskLevel::Avoid => {
            if readings.volatility_above_limit {
                RiskVerdict::Reject("Volatility too high for risk-averse profile".to_string())
            } else if readings.return_negative {
                RiskVerdict::Reject("Negative expected return".to_string())
            } else {
                RiskVerdict::Accept
            }
        },
        RiskLevel::Neutral => {
            if readings.volatility_above_double {
                RiskVerdict::Reject("Volatility exceeds 2x threshold".to_string())
            } else if readings.return_low {
                RiskVerdict::Caution("Low expected returns".to_string())
            } else {
                RiskVerdict::Accept
            }
        },
        RiskLevel::Embrace => {
            if readings.volatility_above_quadruple {
                RiskVerdict::Caution("Extreme volatility".to_string())
            } else {
                RiskVerdict::Accept
            }
        },
    }
}

/// A portfolio that a more cautious profile accepts, a bolder profile accepts
/// too.
pub proof fn lemma_bolder_profiles_accept_more(readings: RiskReadings)
    requires
        readings.consistent(),
    ensures
        accepts(RiskLevel::Avoid, readings) ==> accepts(RiskLevel::Neutral, readings),
        accepts(RiskLevel::Neutral, readings) ==> accepts(RiskLevel::Embrace, readings),
{
}

/// The bolder the profile, the milder its verdict on the same portfolio:
/// counting caution above acceptance and rejection above caution, a
/// risk-seeking profile is never more severe than a neutral one, nor a neutral
/// one than a risk-averse one. A risk-seeking profile never rejects, and a
/// risk-averse one never merely warns.
pub proof fn lemma_verdicts_ordered_by_risk_appetite(readings: RiskReadings)
    requires
        readings.consistent(),
    ensures
        severity(RiskLevel::Embrace, readings) <= severity(RiskLevel::Neutral, readings),
        severity(RiskLevel::Neutral, readings) <= severity(RiskLevel::Avoid, readings),
        severity(RiskLevel::Embrace, readings) < 2,
        severity(RiskLevel::Avoid, readings) != 1,
{
}

/// Portfolio optimizer with risk levels.
#[derive(Clone, Copy, Debug)]
pub struct PortfolioOptimizer {
    pub risk_level: RiskLevel,
}

impl PortfolioOptimizer {
    pub fn new(risk: RiskLevel) -> (r: Self)
        ensures
            r.risk_level == risk,
    {
        PortfolioOptimizer { risk_level: risk }
    }
}

} // verus!
