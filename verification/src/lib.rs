//! Akraz shares one pointer and keyboard between trusted computers on a local network.
//!
//! The crate holds the decisions of the daemon, its local control channel, its peer sessions and
//! the desktop application. Everything that touches a socket, a file, a process or the clock stays
//! outside and hands plain values in.

pub mod address;
pub mod calls;
pub mod capture;
pub mod cli;
pub mod commands;
pub mod control;
pub mod crypto;
pub mod diagnostics;
pub mod discovery;
pub mod endpoint;
pub mod identity;
pub mod json;
pub mod launch;
pub mod lifecycle;
pub mod logs;
pub mod managed;
pub mod mdns;
pub mod order;
pub mod pairing;
pub mod peers;
pub mod platform;
pub mod protocol;
pub mod recovery;
pub mod rpc;
pub mod runtime;
pub mod server;
pub mod services;
pub mod session;
pub mod settings;
pub mod smoke;
pub mod snapshot;
pub mod startup;
pub mod status;
pub mod store;
pub mod text;
pub mod transport;
pub mod tryout;
pub mod wire;
