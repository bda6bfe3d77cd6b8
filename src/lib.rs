//! Decision core of a watcher that keeps a firewall profile in step with the
//! state of a VPN connection.

pub mod timestamp;
pub mod state;
pub mod probe;
pub mod reconcile;
pub mod laws;
