//! Core of a resilient streaming "now playing" client.
//!
//! The library decodes server-sent-event frames carrying song metadata,
//! maintains the single authoritative snapshot of the current song, and
//! drives the reconnect-forever state machine of the stream client. All
//! transport work (HTTP, timers, task spawning) stays with the caller, which
//! feeds bytes and connection events in and performs the returned actions.

pub mod client;
pub mod commands;
pub mod parser;
pub mod song;
pub mod store;
