//! Device-local bridge between an agent daemon and the process that owns the device's user
//! interface.
pub mod approvals;
pub mod channel;
pub mod clock;
pub mod connection;
pub mod frames;
pub mod history;
pub mod inbound;
pub mod keys;
pub mod laws;
pub mod listen;
pub mod messages;
pub mod outbound;
pub mod outside;
pub mod router;
pub mod session;
pub mod wire;
pub mod wire_laws;
