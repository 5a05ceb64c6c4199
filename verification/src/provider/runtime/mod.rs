//! What every live feed is built from.
pub mod buffer;
pub mod config;
pub mod emitter;
pub mod endpoint;
pub mod frame;
pub mod generation;
pub mod generation_laws;
pub mod http;
pub mod live;
pub mod ready;
pub mod reconcile;
pub mod stream_laws;
pub mod supervisor;
pub mod websocket;
