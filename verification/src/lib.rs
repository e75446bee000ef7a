//! Authoritative core of a real-time multiplayer session server.
//!
//! The world model, the identity registry and the simulation step are plain
//! data and functions; the tick scheduler and the connection handler are
//! described as step functions that a runtime drives.

pub mod gamestate;
pub mod messages;
pub mod engine;
pub mod scheduler;
pub mod network;
