//! Request handling of an MQTT broker and node reporting of a journal server,
//! as state machines whose decisions are verified.
//!
//! Each handler is a function from a state and an event to the next state and
//! the question to put to the outside world (a cache, a store, a clock), or to
//! the reply that ends the request. A driver asks the question and hands the
//! answer back as the next event.

pub mod broker;
pub mod journal;
pub mod machine;
