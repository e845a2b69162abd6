//! The packet handlers of the broker.

pub mod ack;
pub mod connect;
pub mod disconnect;
pub mod ping;
pub mod publish;
pub mod release;
pub mod service;
pub mod subscribe;
pub mod types;
pub mod unsubscribe;
