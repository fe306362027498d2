pub mod error;
pub mod fields;
pub mod handshake;
pub mod messages;
mod outside;
pub mod session;
pub mod wire;
