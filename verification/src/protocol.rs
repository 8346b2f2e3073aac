//! What a build asks of its surroundings, and what it is told in return.
//!
//! A build never touches the file system, the network or another process
//! itself. It names the next step as an `Action`; whoever runs the build
//! performs the step and reports how it went as an `Event`.

use vstd::prelude::*;
use crate::bindings::{GeneratorConfig, GeneratorSettings};
use crate::builder::{CompileJob, CompileOrder, Directive, Instruction};
use crate::failure::{ExitStatus, Failure};
use crate::source::{Location, SourceLocation};

verus! {

/// What an `Action` holds.
pub enum Request {
    Probe { path: Seq<char> },
    CloneRepository { url: Seq<char>, directory: Seq<char> },
    FetchUpdates { directory: Seq<char> },
    CheckoutRevision { directory: Seq<char>, revision: Seq<char> },
    Enumerate { pattern: Seq<char> },
    Compile(CompileOrder),
    RunBuildTool { program: Seq<char>, directory: Seq<char> },
    Emit(Seq<Instruction>),
    Generate(GeneratorSettings),
    Store { path: Seq<char> },
    Finish(Location),
    Abort(Failure),
}

/// The next step of a build.
#[derive(Clone, Debug, PartialEq, Eq)]
pub enum Action {
    /// Find out whether a path exists.
    Probe { path: String },
    /// Clone the repository at `url` into `directory`.
    CloneRepository { url: String, directory: String },
    /// Fetch what is new into the clone in `directory`.
    FetchUpdates { directory: String },
    /// Check `revision` out in the clone in `directory`.
    CheckoutRevision { directory: String, revision: String },
    /// List the files that match `pattern`.
    Enumerate { pattern: String },
    /// Run the C compiler.
    Compile(CompileJob),
    /// Run `program` in `directory`.
    RunBuildTool { program: String, directory: String },
    /// Hand these instructions to the build system, in order.
    Emit(Vec<Directive>),
    /// Translate the headers.
    Generate(GeneratorConfig),
    /// Write what was generated to `path`.
    Store { path: String },
    /// Nothing is left to do: the native library is at this location.
    Finish(SourceLocation),
    /// Nothing more can be done: give up with this failure.
    Abort(Failure),
}

impl View for Action {
    type V = Request;

    open spec fn view(&self) -> Request {
        match self {
            Action::Probe { path } => Request::Probe { path: path@ },
            Action::CloneRepository { url, directory } => Request::CloneRepository {
                url: url@,
                directory: directory@,
            },
            Action::FetchUpdates { directory } => Request::FetchUpdates { directory: directory@ },
            Action::CheckoutRevision { directory, revision } => Request::CheckoutRevision {
                directory: directory@,
                revision: revision@,
            },
            Action::Enumerate { pattern } => Request::Enumerate { pattern: pattern@ },
            Action::Compile(job) => Request::Compile(job@),
            Action::RunBuildTool { program, directory } => Request::RunBuildTool {
                program: program@,
                directory: directory@,
            },
            Action::Emit(directives) => Request::Emit(directives.deep_view()),
            Action::Generate(config) => Request::Generate(config@),
            Action::Store { path } => Request::Store { path: path@ },
            Action::Finish(location) => Request::Finish(location@),
            Action::Abort(failure) => Request::Abort(*failure),
        }
    }
}

/// What an `Event` holds.
pub enum Report {
    Exists(bool),
    Exited(ExitStatus),
    Matched(Seq<Seq<char>>),
    Malformed,
    Succeeded,
    Rejected,
}

/// How a step went.
#[derive(Clone, Debug, PartialEq, Eq)]
pub enum Event {
    /// Whether the path that was probed exists.
    Exists(bool),
    /// How the process that was run ended.
    Exited(ExitStatus),
    /// The files that match the pattern.
    Matched(Vec<String>),
    /// The pattern cannot be read as one.
    Malformed,
    /// The step was done.
    Succeeded,
    /// The step could not be done.
    Rejected,
}

impl View for Event {
    type V = Report;

    open spec fn view(&self) -> Report {
        match self {
            Event::Exists(exists) => Report::Exists(*exists),
            Event::Exited(status) => Report::Exited(*status),
            Event::Matched(units) => Report::Matched(units.deep_view()),
            Event::Malformed => Report::Malformed,
            Event::Succeeded => Report::Succeeded,
            Event::Rejected => Report::Rejected,
        }
    }
}

} // verus!
