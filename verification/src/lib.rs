//! Core of an event-driven trading engine: a tick-dispatch, strategy-aggregation
//! and order-routing loop over pluggable `Strategy` and `Gateway` implementations,
//! together with the data model that binds them and a deterministic backtest driver.
//!
//! Prices, volumes and price levels are carried as integer counts of hundredths
//! of the quoted unit; timestamps are milliseconds since the Unix epoch.

pub mod engine;
pub mod gateway;
pub mod order;
pub mod strategy;

pub use engine::{BacktestError, Decision, Engine, RoutedOrder, StrategyEntry};
pub use gateway::{Gateway, GatewayError, MockGateway, RejectPolicy, RejectReason};
pub use order::{CancelRequest, OrderRequest, OrderSide, OrderType, TimeInForce};
pub use strategy::{
    Direction, NaiveStrategy, Script, ScriptedStrategy, Strategy, StrategyAction, StrategyError,
    Tick, Trade,
};
