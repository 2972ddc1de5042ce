//! Client for the dlist.top real-time gateway: the wire model, the decoding of
//! frames into typed events, and the per-frame state machine of a connection.
pub mod client;
pub mod entity;
pub mod events;
pub mod json;
pub mod payload;
pub mod text;
pub mod timestamp;
