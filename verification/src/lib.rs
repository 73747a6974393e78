//! Sharing a clipboard between machines.

pub mod bytes;
pub mod cli;
pub mod clipboard;
pub mod connection;
pub mod decimal;
pub mod delivery;
pub mod laws;
pub mod link;
pub mod outside;
pub mod packing;
pub mod secure;
pub mod watch;
pub mod wire;
