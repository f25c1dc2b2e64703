//! A manager of game-server instances that run in containers.
//!
//! The crate holds the rules of the manager: which port a new instance
//! gets, how its compose file is merged, how the answers of the container
//! runtime are read, how log lines are classified, and the registry of
//! instances with its guards.  It reads no file and talks to no runtime: a
//! caller does that and hands the results in.

pub mod cloud;
pub mod compose;
pub mod error;
pub mod handlers;
pub mod logs;
pub mod ports;
pub mod registry;
pub mod runtime;
pub mod server;
pub mod status;
pub mod text;
pub mod ws;

use vstd::prelude::*;

verus! {

/// The manager's own settings: the project of the record store, the port
/// of the web server, the directory under which instances live, and the
/// helper programs started with the manager.
#[derive(Debug, Clone, PartialEq, Eq)]
pub struct Config {
    pub fb_id: String,
    pub ws_port: u16,
    pub path: String,
    pub modules: Vec<String>,
}

} // verus!
