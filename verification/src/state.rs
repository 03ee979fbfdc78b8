//! Startup configuration shared by every request.

use vstd::prelude::*;

verus! {

/// The port that is listened on when none is configured.
pub const DEFAULT_PORT: u16 = 8080;

/// What the server is started with. Nothing in it changes afterwards.
#[derive(Clone, Debug, PartialEq, Eq)]
pub struct Args {
    /// The port to listen on.
    pub port: u16,
    /// The root directory beneath which all servable files live.
    pub directory: String,
}

/// The application state that is handed to every request.
#[derive(Clone, Debug, PartialEq, Eq)]
pub struct State {
    pub args: Args,
}

impl State {
    /// The root directory as the sequence of its characters.
    pub open spec fn root(&self) -> Seq<char> {
        self.args.directory@
    }
}

} // verus!
