//! Streaming session engine for a liquidation feed: symbol taxonomy, envelope
//! decoding, heartbeat liveness and the session's control decisions.

pub mod amount;
pub mod decode;
pub mod endpoint;
pub mod errors;
pub mod heartbeat;
pub mod json;
pub mod notify;
pub mod numeral;
pub mod session;
pub mod symbol;
pub mod text;
pub mod timestamp;
pub mod types;
