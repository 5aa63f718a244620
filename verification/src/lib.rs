//! Local-network presence and remote-control library.
//!
//! A desktop host advertises itself on the local network, watches for peers
//! advertising a matching service, and accepts a small set of remote-control
//! commands over a TCP channel. This crate holds the verified core: the
//! service-presence lifecycle, the command protocol, and the ordered teardown
//! of the process-wide resources.
pub mod addresses;
pub mod command;
pub mod discovery;
pub mod errors;
pub mod goodbye;
pub mod mdns;
pub mod presence;
pub mod record;
pub mod server;
pub mod state;
pub mod text;
