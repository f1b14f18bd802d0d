//! Scoring of keystroke-timing statistics and authentication of the requests
//! that carry them.
//!
//! Numbers that arrive as IEEE 754 double-precision values are held by their
//! bit patterns (see [`models::double::Double`]); every comparison the service
//! makes on them is carried out, and specified, exactly.

pub mod config;
pub mod handlers;
pub mod middleware;
pub mod models;
