//! A remote-signing protocol engine without I/O.
//!
//! The engine decides; its host performs. Every entry point takes the state it
//! needs as plain values (the local key, the stored session, the pending pairing)
//! and returns what the host must persist, send, or ask of the local identity.
pub mod command;
pub mod error;
pub mod event;
pub mod json;
pub mod key;
pub mod laws;
pub mod pairing;
pub mod relay;
pub mod server;
pub mod text;
pub mod uri;
