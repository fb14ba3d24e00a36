//! Orchestration core of a desktop tray controller that supervises a local
//! network-forwarding agent process and keeps the host's system proxy
//! configuration in step with the user's mode selections.

pub mod coordinator;
pub mod launch;
pub mod network;
pub mod props;
pub mod rules;
pub mod server;
pub mod state;
pub mod ui;
