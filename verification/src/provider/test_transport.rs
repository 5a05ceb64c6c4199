//! What a test of a provider's transport needs, in one place.
pub use super::binance::BinanceDecoded;
pub use super::hyperliquid::HyperliquidDecoded;
pub use super::okx::OkxDecoded;
pub use super::runtime::config::{
    WsConfig, WS_FRAME_SIZE, WS_MAX_WRITE_BUFFER_SIZE, WS_MESSAGE_INACTIVITY_TIMEOUT_MILLIS,
    WS_MESSAGE_SIZE, WS_READ_BUFFER_SIZE, WS_STALLED_WRITE_TIMEOUT_MILLIS, WS_WRITE_BUFFER_SIZE,
};
pub use super::runtime::endpoint::validate_loopback_websocket_base;
pub use super::runtime::frame::DecodedFrame;
