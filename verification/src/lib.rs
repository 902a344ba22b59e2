//! Socket multiplexing and poll scheduling for a user-space network stack.
//!
//! The crate stores heterogeneous protocol sockets in a fixed-capacity arena
//! addressed by generation-tagged handles, wraps them in one closed sum type
//! with safe upcast/downcast, and computes per-socket scheduling hints that
//! tell the surrounding event loop exactly when each socket next needs
//! attention.

pub mod arena;
pub mod phy;
pub mod proto;
pub mod socket;
pub mod time;
