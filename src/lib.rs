//! Pre-trade risk checks, margin, circuit breakers, stress tests and the
//! shared counters behind them, on exact fixed-point numbers.
//!
//! Every amount the library takes is an `i64` count of millionths of a unit
//! (a quantity, a price, a percentage). Every amount it returns is an exact
//! [`Decimal`]: the arithmetic never rounds.
pub mod decimal;
pub mod circuit;
pub mod pretrade;
pub mod margin;
pub mod stress;
pub mod stats;

pub use decimal::{Decimal, Fraction, MICROS_PER_UNIT};
pub use circuit::{circuit_breaker, CircuitBreakerRequest, CircuitBreakerResponse, Level};
pub use pretrade::{assess_pretrade, pretrade_check, PreTradeCheckRequest, PreTradeCheckResponse, Reason};
pub use margin::{margin_calc, request_within_limits, MarginRequest, MarginResponse, Position};
pub use stress::{stress_test, Breach, StressTestRequest, StressTestResponse};
pub use stats::{Stats, StatsEvent, StatsReport};
