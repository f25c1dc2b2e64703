//! The status that a game server reports about itself.

use crate::error::Error;
use vstd::prelude::*;
use vstd::string::StringExecFns;

verus! {

/// What is sent to a game server to ask for its status.
pub const STATUS_REQUEST: &'static str = "\\x00";

/// How the greeting of a status request begins.
pub const GREETING_HEAD: &'static str = "\\x00\\x00";

/// How the greeting of a status request ends.
pub const GREETING_TAIL: &'static str = "\\x01";

/// The version that a server runs.
#[derive(Debug, Clone, PartialEq, Eq)]
pub struct Version {
    pub name: String,
}

/// A player that the server lists as online.
#[derive(Debug, Clone, PartialEq, Eq)]
pub struct Player {
    pub name: String,
    pub id: String,
}

/// How many players the server holds, and a sample of them.
#[derive(Debug, Clone, PartialEq, Eq)]
pub struct Players {
    pub max: u32,
    pub online: u32,
    pub sample: Vec<Player>,
}

/// The message of the day.
#[derive(Debug, Clone, PartialEq, Eq)]
pub struct Motd {
    pub text: String,
}

/// The status of a game server.
#[derive(Debug, Clone, PartialEq, Eq)]
pub struct Status {
    pub version: Version,
    pub players: Players,
    pub description: Motd,
    pub favicon: String,
}

/// Why a game server gave no status.
#[derive(Debug, Clone, Copy, PartialEq, Eq, Structural)]
pub enum StatusFailure {
    /// No connection to the game server could be opened.
    NoConnection,
    /// The game server did not answer the ping.
    NoAnswer,
}

/// The sentence that explains why a game server gave no status.
pub open spec fn status_reason(failure: StatusFailure) -> Seq<char> {
    match failure {
        StatusFailure::NoConnection => "Failed to open TCP stream"@,
        StatusFailure::NoAnswer => "Failed to ping the server for status"@,
    }
}

impl StatusFailure {
    /// This failure as an error that explains it.
    pub fn error(self) -> (e: Error)
        ensures
            e@ == status_reason(self),
    {
        match self {
            StatusFailure::NoConnection => Error::from("Failed to open TCP stream"),
            StatusFailure::NoAnswer => Error::from("Failed to ping the server for status"),
        }
    }
}

/// Where to ask a game server for its status.
#[derive(Debug, Clone, PartialEq, Eq)]
pub struct StatusRequest {
    pub hostname: String,
    pub port: u16,
}

impl Status {
    /// The greeting that opens a status request to the server at `ip`.
    pub fn greeting(ip: &str) -> (text: String)
        ensures
            text@ == GREETING_HEAD@ + ip@ + GREETING_TAIL@,
    {
        String::from_str(GREETING_HEAD).concat(ip).concat(GREETING_TAIL)
    }

    /// Does nothing.
    pub fn build() {
    }
}

} // verus!
