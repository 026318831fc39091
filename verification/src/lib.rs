//! Decision logic of a command bridge that keeps one MLS group state per device.
//!
//! The library holds what the bridge decides: how device directories are named,
//! how requests are checked, which device does what in which order, and what is
//! answered. Running the MLS operations and touching the disk is left to the
//! caller, which performs the actions that the sessions hand out.

pub mod text;
pub mod hex;
pub mod codec;
pub mod layout;
pub mod identity;
pub mod wire;
pub mod exchange;
pub mod plan;
pub mod session;
pub mod laws;
