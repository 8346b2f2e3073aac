//! Finding the native library: an ordered chain of places to look, of
//! which the first that is there is taken.
//!
//! First the directory named as holding built artifacts, if it exists;
//! then the directory named as holding sources, if it exists; last a
//! source tree of its own, cloned from upstream or brought up to date,
//! with a fixed revision checked out. A named directory that does not
//! exist is passed over in silence. A process that fails ends the search.

use vstd::prelude::*;
use crate::config::{EnvironmentConfiguration, Settings, UPSTREAM_URL, Variable};
use crate::failure::{ExitStatus, Failure, FailureKind, Stage};
use crate::path::{join, joined};
use crate::protocol::{Action, Event, Report, Request};
use crate::source::{Tier, cache_dir, cache_directory, locate, location};

verus! {

/// The file whose presence shows that the source tree has been cloned.
pub const BUILD_DESCRIPTOR: &'static str = "Makefile";

/// How far the search has come. Each state but the last two waits for the
/// report on one step.
#[derive(Clone, Copy, Debug, PartialEq, Eq)]
pub enum State {
    /// Does the directory of built artifacts exist?
    ProbePrecompiled,
    /// Does the directory of sources exist?
    ProbeSource,
    /// Has the source tree been cloned before?
    ProbeCache,
    /// The source tree is being cloned.
    Cloning,
    /// The source tree is being brought up to date.
    Fetching,
    /// The revision is being checked out.
    CheckingOut,
    /// The native library was found.
    Resolved(Tier),
    /// The search has failed.
    Failed(Failure),
}

/// The failure of the search for want of a setting.
pub open spec fn unset(variable: Variable) -> Failure {
    Failure { stage: Stage::Resolution, kind: FailureKind::ConfigurationReadFailure(variable) }
}

/// The failure of the search by a process that did not succeed.
pub open spec fn unsuccessful(status: ExitStatus) -> Failure {
    Failure { stage: Stage::Resolution, kind: FailureKind::ExternalProcessFailure(status) }
}

/// Where the search turns to the source tree of its own: that needs the
/// output directory to keep it in.
pub open spec fn enter_cache(settings: Settings) -> State {
    if settings.output_dir is Some {
        State::ProbeCache
    } else {
        State::Failed(unset(Variable::OutputDir))
    }
}

/// Where the search goes when no directory of built artifacts is there.
pub open spec fn after_precompiled(settings: Settings) -> State {
    if settings.source_path is Some {
        State::ProbeSource
    } else {
        enter_cache(settings)
    }
}

/// Where the search starts.
pub open spec fn start(settings: Settings) -> State {
    if settings.precompiled_path is Some {
        State::ProbePrecompiled
    } else {
        after_precompiled(settings)
    }
}

/// Where the search goes after a process has ended.
pub open spec fn after_process(status: ExitStatus, onward: State) -> State {
    if status.spec_success() {
        onward
    } else {
        State::Failed(unsuccessful(status))
    }
}

/// The state that follows on a report. A report of a kind that the state
/// does not wait for leaves the state as it is.
pub open spec fn next(settings: Settings, state: State, report: Report) -> State {
    match (state, report) {
        (State::ProbePrecompiled, Report::Exists(true)) => State::Resolved(Tier::Precompiled),
        (State::ProbePrecompiled, Report::Exists(false)) => after_precompiled(settings),
        (State::ProbeSource, Report::Exists(true)) => State::Resolved(Tier::Source),
        (State::ProbeSource, Report::Exists(false)) => enter_cache(settings),
        (State::ProbeCache, Report::Exists(true)) => State::Fetching,
        (State::ProbeCache, Report::Exists(false)) => State::Cloning,
        (State::Cloning, Report::Exited(status)) => after_process(status, State::CheckingOut),
        (State::Fetching, Report::Exited(status)) => after_process(status, State::CheckingOut),
        (State::CheckingOut, Report::Exited(status)) => after_process(
            status,
            State::Resolved(Tier::Cache),
        ),
        _ => state,
    }
}

/// The step that a state waits for. A state that needs a setting which is
/// absent asks to give up.
pub open spec fn request(settings: Settings, state: State) -> Request {
    match state {
        State::ProbePrecompiled => match settings.precompiled_path {
            Some(path) => Request::Probe { path },
            None => Request::Abort(unset(Variable::PrecompiledPath)),
        },
        State::ProbeSource => match settings.source_path {
            Some(path) => Request::Probe { path },
            None => Request::Abort(unset(Variable::SourcePath)),
        },
        State::ProbeCache => match cache_directory(settings) {
            Some(directory) => Request::Probe { path: joined(directory, BUILD_DESCRIPTOR@) },
            None => Request::Abort(unset(Variable::OutputDir)),
        },
        State::Cloning => match cache_directory(settings) {
            Some(directory) => Request::CloneRepository { url: UPSTREAM_URL@, directory },
            None => Request::Abort(unset(Variable::OutputDir)),
        },
        State::Fetching => match cache_directory(settings) {
            Some(directory) => Request::FetchUpdates { directory },
            None => Request::Abort(unset(Variable::OutputDir)),
        },
        State::CheckingOut => match cache_directory(settings) {
            Some(directory) => Request::CheckoutRevision {
                directory,
                revision: settings.revision(),
            },
            None => Request::Abort(unset(Variable::OutputDir)),
        },
        State::Resolved(tier) => match location(settings, tier) {
            Some(found) => Request::Finish(found),
            None => Request::Abort(unset(tier.spec_variable())),
        },
        State::Failed(failure) => Request::Abort(failure),
    }
}

/// The location that was passed over, where a report says that a named
/// directory does not exist.
pub open spec fn passed_over(state: State, report: Report) -> Option<Failure> {
    match (state, report) {
        (State::ProbePrecompiled, Report::Exists(false)) => Some(
            Failure {
                stage: Stage::Resolution,
                kind: FailureKind::MissingLocation(Variable::PrecompiledPath),
            },
        ),
        (State::ProbeSource, Report::Exists(false)) => Some(
            Failure {
                stage: Stage::Resolution,
                kind: FailureKind::MissingLocation(Variable::SourcePath),
            },
        ),
        _ => None,
    }
}

impl State {
    /// Whether the search is over.
    pub open spec fn spec_is_terminal(self) -> bool {
        self is Resolved || self is Failed
    }

    /// Whether the search is over.
    pub fn is_terminal(&self) -> (r: bool)
        ensures
            r == self.spec_is_terminal(),
    {
        match self {
            State::Resolved(_) => true,
            State::Failed(_) => true,
            _ => false,
        }
    }
}

fn unset_failure(variable: Variable) -> (r: Failure)
    ensures
        r == unset(variable),
{
    Failure { stage: Stage::Resolution, kind: FailureKind::ConfigurationReadFailure(variable) }
}

fn enter_cache_state(config: &EnvironmentConfiguration) -> (r: State)
    ensures
        r == enter_cache(config@),
{
    match &config.output_dir {
        Some(_) => State::ProbeCache,
        None => State::Failed(unset_failure(Variable::OutputDir)),
    }
}

fn after_precompiled_state(config: &EnvironmentConfiguration) -> (r: State)
    ensures
        r == after_precompiled(config@),
{
    match &config.source_path {
        Some(_) => State::ProbeSource,
        None => enter_cache_state(config),
    }
}

fn after_process_state(status: ExitStatus, onward: State) -> (r: State)
    ensures
        r == after_process(status, onward),
{
    if status.success() {
        onward
    } else {
        State::Failed(
            Failure {
                stage: Stage::Resolution,
                kind: FailureKind::ExternalProcessFailure(status),
            },
        )
    }
}

/// The state in which the search starts.
pub fn begin(config: &EnvironmentConfiguration) -> (r: State)
    ensures
        r == start(config@),
{
    match &config.precompiled_path {
        Some(_) => State::ProbePrecompiled,
        None => after_precompiled_state(config),
    }
}

/// The state that follows on the report of a step.
pub fn advance(config: &EnvironmentConfiguration, state: State, event: &Event) -> (r: State)
    ensures
        r == next(config@, state, event@),
{
    match state {
        State::ProbePrecompiled => match event {
            Event::Exists(true) => State::Resolved(Tier::Precompiled),
            Event::Exists(false) => after_precompiled_state(config),
            _ => state,
        },
        State::ProbeSource => match event {
            Event::Exists(true) => State::Resolved(Tier::Source),
            Event::Exists(false) => enter_cache_state(config),
            _ => state,
        },
        State::ProbeCache => match event {
            Event::Exists(true) => State::Fetching,
            Event::Exists(false) => State::Cloning,
            _ => state,
        },
        State::Cloning => match event {
            Event::Exited(status) => after_process_state(*status, State::CheckingOut),
            _ => state,
        },
        State::Fetching => match event {
            Event::Exited(status) => after_process_state(*status, State::CheckingOut),
            _ => state,
        },
        State::CheckingOut => match event {
            Event::Exited(status) => after_process_state(*status, State::Resolved(Tier::Cache)),
            _ => state,
        },
        State::Resolved(_) => state,
        State::Failed(_) => state,
    }
}

/// The step that a state waits for.
pub fn action(config: &EnvironmentConfiguration, state: State) -> (r: Action)
    ensures
        r@ == request(config@, state),
{
    match state {
        State::ProbePrecompiled => match &config.precompiled_path {
            Some(path) => Action::Probe { path: path.clone() },
            None => Action::Abort(unset_failure(Variable::PrecompiledPath)),
        },
        State::ProbeSource => match &config.source_path {
            Some(path) => Action::Probe { path: path.clone() },
            None => Action::Abort(unset_failure(Variable::SourcePath)),
        },
        State::ProbeCache => match cache_dir(config) {
            Some(directory) => Action::Probe {
                path: join(directory.as_str(), BUILD_DESCRIPTOR),
            },
            None => Action::Abort(unset_failure(Variable::OutputDir)),
        },
        State::Cloning => match cache_dir(config) {
            Some(directory) => Action::CloneRepository { url: UPSTREAM_URL.to_owned(), directory },
            None => Action::Abort(unset_failure(Variable::OutputDir)),
        },
        State::Fetching => match cache_dir(config) {
            Some(directory) => Action::FetchUpdates { directory },
            None => Action::Abort(unset_failure(Variable::OutputDir)),
        },
        State::CheckingOut => match cache_dir(config) {
            Some(directory) => Action::CheckoutRevision { directory, revision: config.revision() },
            None => Action::Abort(unset_failure(Variable::OutputDir)),
        },
        State::Resolved(tier) => match locate(config, tier) {
            Some(found) => Action::Finish(found),
            None => Action::Abort(unset_failure(tier.variable())),
        },
        State::Failed(failure) => Action::Abort(failure),
    }
}

/// The location that was passed over, where the report says that a named
/// directory does not exist.
pub fn skipped(state: State, event: &Event) -> (r: Option<Failure>)
    ensures
        r == passed_over(state, event@),
        r matches Some(failure) ==> !failure.kind.spec_is_fatal(),
{
    match (state, event) {
        (State::ProbePrecompiled, Event::Exists(false)) => Some(
            Failure {
                stage: Stage::Resolution,
                kind: FailureKind::MissingLocation(Variable::PrecompiledPath),
            },
        ),
        (State::ProbeSource, Event::Exists(false)) => Some(
            Failure {
                stage: Stage::Resolution,
                kind: FailureKind::MissingLocation(Variable::SourcePath),
            },
        ),
        _ => None,
    }
}

} // verus!
