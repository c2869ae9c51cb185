//! Decision logic of a local gateway that stands between a front-end and a
//! model-serving process on the same machine.
//!
//! Everything here works on plain values. Whoever embeds the library performs
//! the network and process operations and reports their outcomes back.

pub mod command;
pub mod config;
pub mod decimal;
pub mod event;
pub mod execution;
pub mod gateway;
pub mod policy;
pub mod prober;
pub mod proxy;
pub mod text;
pub mod trace;
