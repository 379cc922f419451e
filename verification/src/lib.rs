//! Schema and topic-addressing layer for a real-time marketplace event feed
//! delivered over a multiplexed publish/subscribe transport.
//!
//! The crate maps logical subscription targets to endpoint URLs and channel
//! topic strings, decodes tag-discriminated event payloads into a typed
//! union, and classifies the outcomes a receive handle can observe.

pub mod decode;
pub mod encode;
pub mod json;
pub mod number;
pub mod protocol;
pub mod roundtrip;
pub mod schema;
pub mod stream;
