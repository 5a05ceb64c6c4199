//! Terminal candlestick charts: the verified core of the market-data runtime.
pub mod calendar;
pub mod candle;
pub mod clock;
pub mod error;
pub mod event;
pub mod json;
pub mod model;
pub mod provider;
pub mod saturate;
pub mod snapshot;
pub mod snapshot_laws;
pub mod terminal;
pub mod text;
