//! Economic models with ternary market signals.
//!
//! The verified core of a ternary economics toolkit: market signals on
//! {-1, 0, +1}, majority aggregation of signal histories, supply/demand
//! pressure, risk-profile rules, agent signal adjustment and trading strategies.

pub mod agent;
pub mod market;
pub mod risk;
pub mod signal;
pub mod strategy;

pub use agent::generate_signal;
pub use market::{imbalance, price_pressure};
pub use risk::{assess_readings, PortfolioOptimizer, RiskLevel, RiskReadings, RiskVerdict};
pub use signal::{aggregate_history, aggregate_signal, MarketSignal};
pub use strategy::{buy_and_hold_strategy, contrarian_strategy, momentum_strategy, TradeSide};
