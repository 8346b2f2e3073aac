//! The surroundings of a build, as far as the build can tell: what it
//! would be told on each request.

use vstd::prelude::*;
use crate::failure::ExitStatus;
use crate::protocol::{Report, Request};

verus! {

/// The surroundings of a build.
pub struct World {
    /// The paths that exist.
    pub paths: Set<Seq<char>>,
    /// How the process ends that a request starts.
    pub status: spec_fn(Request) -> ExitStatus,
    /// The files that match a pattern, or nothing where the pattern
    /// cannot be read as one.
    pub listing: spec_fn(Seq<char>) -> Option<Seq<Seq<char>>>,
    /// Whether what a request asks to translate or to write can be done.
    pub accepts: spec_fn(Request) -> bool,
}

impl World {
    /// What the world reports on a request.
    pub open spec fn react(self, asked: Request) -> Report {
        match asked {
            Request::Probe { path } => Report::Exists(self.paths.contains(path)),
            Request::CloneRepository { .. } => Report::Exited((self.status)(asked)),
            Request::FetchUpdates { .. } => Report::Exited((self.status)(asked)),
            Request::CheckoutRevision { .. } => Report::Exited((self.status)(asked)),
            Request::Compile(_) => Report::Exited((self.status)(asked)),
            Request::RunBuildTool { .. } => Report::Exited((self.status)(asked)),
            Request::Enumerate { pattern } => match (self.listing)(pattern) {
                Some(units) => Report::Matched(units),
                None => Report::Malformed,
            },
            Request::Generate(_) => if (self.accepts)(asked) {
                Report::Succeeded
            } else {
                Report::Rejected
            },
            Request::Store { .. } => if (self.accepts)(asked) {
                Report::Succeeded
            } else {
                Report::Rejected
            },
            Request::Emit(_) => Report::Succeeded,
            Request::Finish(_) => Report::Succeeded,
            Request::Abort(_) => Report::Rejected,
        }
    }

    /// Whether every process succeeds.
    pub open spec fn reliable(self) -> bool {
        forall|asked: Request| #[trigger] (self.status)(asked).spec_success()
    }
}

} // verus!
