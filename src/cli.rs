use vstd::prelude::*;

verus! {

/// The command line: an optional configuration file and a subcommand.
#[derive(Clone, Debug, PartialEq, Eq)]
pub struct Cli {
    pub config: Option<String>,
    pub cmd: Cmd,
}

/// The subcommands.
#[derive(Clone, Debug, PartialEq, Eq)]
pub enum Cmd {
    /// Serve the API until a shutdown signal.
    Server(Server),
}

/// The `server` subcommand; it takes no arguments.
#[derive(Clone, Copy, Debug, PartialEq, Eq)]
pub struct Server;

} // verus!
