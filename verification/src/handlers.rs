//! The bodies of the requests that carry one.

use vstd::prelude::*;

verus! {

/// The body of a request to run a command on an instance's console.
#[derive(Debug, Clone, PartialEq, Eq)]
pub struct Exec {
    pub args: Vec<String>,
}

/// The body of a request to create an instance: its name, and optionally
/// its directory, its outside port, the game version and the server
/// variant.
#[derive(Debug, Clone, PartialEq, Eq)]
pub struct New {
    pub id: String,
    pub path: Option<String>,
    pub port: Option<u16>,
    pub version: Option<String>,
    pub server_type: Option<String>,
}

/// A request to create an instance, as plain mathematical values.
pub struct NewView {
    pub id: Seq<char>,
    pub path: Option<Seq<char>>,
    pub port: Option<u16>,
    pub version: Option<Seq<char>>,
    pub server_type: Option<Seq<char>>,
}

impl View for New {
    type V = NewView;

    open spec fn view(&self) -> NewView {
        NewView {
            id: self.id@,
            path: self.path.deep_view(),
            port: self.port,
            version: self.version.deep_view(),
            server_type: self.server_type.deep_view(),
        }
    }
}

} // verus!
