//! Stream-lifecycle core of an overlay-network node.
//!
//! The crate tracks every live inbound/outbound connection the node holds,
//! classifies each as a clandestine mesh link or a sequenced non-clandestine
//! client/exit stream, and coordinates orderly teardown across the node's
//! subsystems.  The [`stream_handler_pool::StreamHandlerPool`] owns the live
//! map from connection identity to handler state; the lifecycle messages in
//! [`stream_messages`] carry registration, removal and wiring information
//! between the pool and its collaborators.

pub mod channel;
pub mod classification;
pub mod connection;
pub mod endpoint;
pub mod laws;
pub mod stream_handler_pool;
pub mod stream_messages;
pub mod text;
