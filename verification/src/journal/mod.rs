//! The reporting of a journal server node to the placement center.

pub mod extend;
pub mod heartbeat;
pub mod register;
pub mod text;
pub mod types;
pub mod watch;
