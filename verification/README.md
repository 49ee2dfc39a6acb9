# ternary_econ

Economic models on ternary market signals {-1, 0, +1}, with the signal logic
stated and proved in contracts.

- `src/signal.rs`: `MarketSignal`, its number conversions, majority
  aggregation of signal histories, and the laws of aggregation.
- `src/market.rs`: supply/demand imbalance and price pressure.
- `src/risk.rs`: risk levels, the tiered risk rules (`assess_readings`) and
  the portfolio optimizer's profile.
- `src/agent.rs`: how an agent's risk tolerance shapes the signal it takes.
- `src/strategy.rs`: momentum, contrarian and buy-and-hold strategies.
- `app/lib.rs`: the floating-point models (prices, returns, volatilities,
  portfolio weights, agents and the market simulation) around that core.
