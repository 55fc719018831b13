//! Event dispatch and boundary marshaling between a real-time calling engine
//! and a managed host runtime.
//!
//! The engine raises events on its own threads; the host can only consume
//! fixed-shape records and opaque integer handles. This crate holds the rules
//! of that boundary: how every event becomes a host notification, how values
//! are packed into byte records, how handles are issued and checked, and when
//! the host's callback table is torn down.

pub mod endpoint;
pub mod error;
pub mod event;
pub mod frames;
pub mod handles;
pub mod http;
pub mod jtypes;
pub mod members;
pub mod peer_connection;
pub mod reporter;
pub mod table;
pub mod text;
pub mod wire;
