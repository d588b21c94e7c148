//! What the operations are for, as laws on their calls.
//!
//! Each law takes the arguments and the result of a call (`call_ensures` says that the call can
//! have returned it) and says what must hold of them, field by field.

pub mod bits;
pub mod collector;
pub mod config;
pub mod cpu;
pub mod detection;
pub mod freeze;
pub mod monitor;
pub mod numbers;
pub mod registry;
pub mod ring;
pub mod sources;
