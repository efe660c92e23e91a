//! Supervision of trusted wireless devices: which devices are tracked, which
//! lifecycle events are emitted for them, and what a reconnect loop does next.

pub mod adapter;
pub mod address;
pub mod auto_connect;
pub mod channel;
pub mod device;
pub mod supervisor;
pub mod watcher;
