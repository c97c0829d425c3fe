//! Core logic of a desktop notifier for a collaboration service: a
//! PKCE-protected authorization handshake and an adaptive polling engine,
//! with the pure decision logic verified and the OS/network edges kept out.

pub mod client;
pub mod crypto;
pub mod engine;
pub mod handshake;
pub mod link;
pub mod model;
pub mod pct;
pub mod present;
pub mod query;
pub mod referrer;
pub mod text;
