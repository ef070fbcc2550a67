//! A bridge between a controller transport that works by callbacks and a
//! packet stack that works on queues.
//!
//! The transport delivers raw buffers on its own thread; the stack reads typed
//! packets from unbounded queues and writes packets for the controller into
//! others. This crate holds what the bridge decides: which session is
//! current, what becomes of each delivered buffer, when a start is complete,
//! and what the outbound loop does with each thing it is handed.

pub mod channel;
pub mod dispatch;
pub mod hal;
pub mod handshake;
pub mod packet;
pub mod registry;
