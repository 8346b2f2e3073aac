//! A build from start to end: find the native library, compile it where
//! it came as sources, tell the linker, translate the headers and write
//! the generated module. One pass, in this order, and the first failure
//! ends it.

use vstd::prelude::*;
use crate::bindings::{
    GeneratorConfig,
    MODULE_FILE,
    generator_settings,
    include_dir,
    include_directory,
};
use crate::builder::{
    BUILD_TOOL,
    CompileJob,
    Strategy,
    compile_order,
    link_directives,
    link_instructions,
    tool_output_dir,
    tool_output_directory,
    unit_pattern,
    unit_pattern_for,
};
use crate::config::{EnvironmentConfiguration, Settings, Variable};
use crate::failure::{ExitStatus, Failure, FailureKind, Stage};
use crate::path::{join, joined};
use crate::protocol::{Action, Event, Report, Request};
use crate::resolver;
use crate::source::{Tier, locate, location};

verus! {

/// What a `BuildState` holds.
pub enum Phase {
    Resolving(resolver::State),
    Enumerating(Tier),
    Compiling(Tier, Seq<Seq<char>>),
    Delegating(Tier),
    Linking(Tier),
    Generating(Tier),
    Storing(Tier),
    Done(Tier),
    Failed(Failure),
}

/// How far a build has come. Each state but the last two waits for the
/// report on one step.
#[derive(Clone, Debug, PartialEq, Eq)]
pub enum BuildState {
    /// The native library is being looked for.
    Resolving(resolver::State),
    /// The source files are being listed.
    Enumerating(Tier),
    /// The source files are being compiled.
    Compiling(Tier, Vec<String>),
    /// The native library's own build tool is running.
    Delegating(Tier),
    /// The linker is being told what to link.
    Linking(Tier),
    /// The headers are being translated.
    Generating(Tier),
    /// The generated module is being written.
    Storing(Tier),
    /// The build is done.
    Done(Tier),
    /// The build has failed.
    Failed(Failure),
}

impl View for BuildState {
    type V = Phase;

    open spec fn view(&self) -> Phase {
        match self {
            BuildState::Resolving(search) => Phase::Resolving(*search),
            BuildState::Enumerating(tier) => Phase::Enumerating(*tier),
            BuildState::Compiling(tier, units) => Phase::Compiling(*tier, units.deep_view()),
            BuildState::Delegating(tier) => Phase::Delegating(*tier),
            BuildState::Linking(tier) => Phase::Linking(*tier),
            BuildState::Generating(tier) => Phase::Generating(*tier),
            BuildState::Storing(tier) => Phase::Storing(*tier),
            BuildState::Done(tier) => Phase::Done(*tier),
            BuildState::Failed(failure) => Phase::Failed(*failure),
        }
    }
}

impl Phase {
    /// Whether the build is over.
    pub open spec fn is_terminal(self) -> bool {
        self is Done || self is Failed
    }
}

impl BuildState {
    /// Whether the build is over.
    pub fn is_terminal(&self) -> (r: bool)
        ensures
            r == self@.is_terminal(),
    {
        match self {
            BuildState::Done(_) => true,
            BuildState::Failed(_) => true,
            _ => false,
        }
    }
}

/// A failure for want of a setting.
pub open spec fn unset(stage: Stage, variable: Variable) -> Failure {
    Failure { stage, kind: FailureKind::ConfigurationReadFailure(variable) }
}

/// What an `Orchestrator` holds.
pub struct Plan {
    pub settings: Settings,
    pub strategy: Strategy,
}

impl Plan {
    /// Where the build goes once the headers can be translated: that
    /// needs the target to be known.
    pub open spec fn enter_generation(self, tier: Tier) -> Phase {
        if self.settings.target_triple is Some {
            Phase::Generating(tier)
        } else {
            Phase::Failed(unset(Stage::Generation, Variable::TargetTriple))
        }
    }

    /// Where the build goes once the native library is found: built
    /// artifacts need no compiling, sources are compiled in the way
    /// that was chosen.
    pub open spec fn after_resolution(self, tier: Tier) -> Phase {
        match tier {
            Tier::Precompiled => self.enter_generation(tier),
            _ => match self.strategy {
                Strategy::Direct => Phase::Enumerating(tier),
                Strategy::Delegated => Phase::Delegating(tier),
            },
        }
    }

    /// Where the build goes once the source files are listed: there must
    /// be at least one, and an output directory to take the result.
    pub open spec fn enter_compilation(self, tier: Tier, units: Seq<Seq<char>>) -> Phase {
        if units.len() == 0 {
            Phase::Failed(
                Failure { stage: Stage::Compilation, kind: FailureKind::PatternMatchFailure },
            )
        } else if self.settings.output_dir is None {
            Phase::Failed(unset(Stage::Compilation, Variable::OutputDir))
        } else {
            Phase::Compiling(tier, units)
        }
    }

    /// Where the build goes once the headers are translated: the module
    /// needs an output directory to be written to.
    pub open spec fn enter_storing(self, tier: Tier) -> Phase {
        if self.settings.output_dir is Some {
            Phase::Storing(tier)
        } else {
            Phase::Failed(unset(Stage::Generation, Variable::OutputDir))
        }
    }

    /// Where the build stands when the search stands at `search`.
    pub open spec fn hand_over(self, search: resolver::State) -> Phase {
        match search {
            resolver::State::Resolved(tier) => self.after_resolution(tier),
            resolver::State::Failed(failure) => Phase::Failed(failure),
            _ => Phase::Resolving(search),
        }
    }

    /// The phase itself, but for a search that is over: the phase that
    /// takes over from it.
    pub open spec fn settled(self, phase: Phase) -> Phase {
        match phase {
            Phase::Resolving(search) => self.hand_over(search),
            _ => phase,
        }
    }

    /// Where the build starts.
    pub open spec fn start(self) -> Phase {
        self.hand_over(resolver::start(self.settings))
    }

    /// Where the build goes after a compiler or build tool has ended.
    pub open spec fn after_process(self, tier: Tier, status: ExitStatus) -> Phase {
        if status.spec_success() {
            Phase::Linking(tier)
        } else {
            Phase::Failed(
                Failure {
                    stage: Stage::Compilation,
                    kind: FailureKind::ExternalProcessFailure(status),
                },
            )
        }
    }

    /// The phase that follows on a report. A report of a kind that the
    /// phase does not wait for leaves the build where it is.
    pub open spec fn next(self, phase: Phase, report: Report) -> Phase {
        match self.settled(phase) {
            Phase::Resolving(search) => self.hand_over(
                resolver::next(self.settings, search, report),
            ),
            Phase::Enumerating(tier) => match report {
                Report::Matched(units) => self.enter_compilation(tier, units),
                Report::Malformed => Phase::Failed(
                    Failure { stage: Stage::Compilation, kind: FailureKind::PatternMatchFailure },
                ),
                _ => Phase::Enumerating(tier),
            },
            Phase::Compiling(tier, units) => match report {
                Report::Exited(status) => self.after_process(tier, status),
                _ => Phase::Compiling(tier, units),
            },
            Phase::Delegating(tier) => match report {
                Report::Exited(status) => self.after_process(tier, status),
                _ => Phase::Delegating(tier),
            },
            Phase::Linking(tier) => match report {
                Report::Succeeded => self.enter_generation(tier),
                _ => Phase::Linking(tier),
            },
            Phase::Generating(tier) => match report {
                Report::Succeeded => self.enter_storing(tier),
                Report::Rejected => Phase::Failed(
                    Failure { stage: Stage::Generation, kind: FailureKind::TranslationFailure },
                ),
                _ => Phase::Generating(tier),
            },
            Phase::Storing(tier) => match report {
                Report::Succeeded => Phase::Done(tier),
                Report::Rejected => Phase::Failed(
                    Failure { stage: Stage::Generation, kind: FailureKind::TranslationFailure },
                ),
                _ => Phase::Storing(tier),
            },
            Phase::Done(tier) => Phase::Done(tier),
            Phase::Failed(failure) => Phase::Failed(failure),
        }
    }

    /// The directory of the native library that a tier stands for, or
    /// the request to give up where the tier's setting is absent.
    pub open spec fn root(self, stage: Stage, tier: Tier) -> Result<Seq<char>, Request> {
        match location(self.settings, tier) {
            Some(found) => Ok(found.directory()),
            None => Err(Request::Abort(unset(stage, tier.spec_variable()))),
        }
    }

    /// The output directory, or the request to give up where it is not set.
    pub open spec fn output(self, stage: Stage) -> Result<Seq<char>, Request> {
        match self.settings.output_dir {
            Some(directory) => Ok(directory),
            None => Err(Request::Abort(unset(stage, Variable::OutputDir))),
        }
    }

    /// The request to tell the linker where the static library is: in the
    /// build tool's own output directory where the build was delegated, in
    /// the output directory where the compiler was run directly.
    pub open spec fn link_request(self, tier: Tier) -> Request {
        match self.root(Stage::Compilation, tier) {
            Err(abort) => abort,
            Ok(source) => match self.strategy {
                Strategy::Delegated => Request::Emit(
                    link_instructions(tool_output_directory(source), self.settings.host_os),
                ),
                Strategy::Direct => match self.output(Stage::Compilation) {
                    Err(abort) => abort,
                    Ok(output) => Request::Emit(link_instructions(output, self.settings.host_os)),
                },
            },
        }
    }

    /// The request to translate the headers: they are looked up in the
    /// directory that was asked for, else below the native library's own.
    pub open spec fn generate_request(self, tier: Tier) -> Request {
        match self.root(Stage::Generation, tier) {
            Err(abort) => abort,
            Ok(source) => match self.settings.target_triple {
                None => Request::Abort(unset(Stage::Generation, Variable::TargetTriple)),
                Some(target) => Request::Generate(
                    generator_settings(
                        include_directory(self.settings.include_path, source),
                        target,
                    ),
                ),
            },
        }
    }

    /// The step that a phase waits for, where the phase is none that a
    /// finished search has yet to hand over. A phase that needs a setting
    /// which is absent asks to give up.
    pub open spec fn settled_request(self, phase: Phase) -> Request {
        match phase {
            Phase::Resolving(search) => resolver::request(self.settings, search),
            Phase::Enumerating(tier) => match self.root(Stage::Compilation, tier) {
                Err(abort) => abort,
                Ok(source) => Request::Enumerate { pattern: unit_pattern(source) },
            },
            Phase::Compiling(tier, units) => match self.root(Stage::Compilation, tier) {
                Err(abort) => abort,
                Ok(source) => match self.output(Stage::Compilation) {
                    Err(abort) => abort,
                    Ok(output) => Request::Compile(compile_order(source, units, output)),
                },
            },
            Phase::Delegating(tier) => match self.root(Stage::Compilation, tier) {
                Err(abort) => abort,
                Ok(source) => Request::RunBuildTool { program: BUILD_TOOL@, directory: source },
            },
            Phase::Linking(tier) => self.link_request(tier),
            Phase::Generating(tier) => self.generate_request(tier),
            Phase::Storing(tier) => match self.output(Stage::Generation) {
                Err(abort) => abort,
                Ok(output) => Request::Store { path: joined(output, MODULE_FILE@) },
            },
            Phase::Done(tier) => match location(self.settings, tier) {
                Some(found) => Request::Finish(found),
                None => Request::Abort(unset(Stage::Generation, tier.spec_variable())),
            },
            Phase::Failed(failure) => Request::Abort(failure),
        }
    }

    /// The step that a phase waits for.
    pub open spec fn request(self, phase: Phase) -> Request {
        self.settled_request(self.settled(phase))
    }
}

/// A build: its settings and the way in which sources are compiled.
#[derive(Clone, Debug, PartialEq, Eq)]
pub struct Orchestrator {
    pub config: EnvironmentConfiguration,
    pub strategy: Strategy,
}

impl View for Orchestrator {
    type V = Plan;

    open spec fn view(&self) -> Plan {
        Plan { settings: self.config@, strategy: self.strategy }
    }
}

fn unset_failure(stage: Stage, variable: Variable) -> (r: Failure)
    ensures
        r == unset(stage, variable),
{
    Failure { stage, kind: FailureKind::ConfigurationReadFailure(variable) }
}

impl Orchestrator {
    /// A build with these settings and this way of compiling.
    pub fn new(config: EnvironmentConfiguration, strategy: Strategy) -> (r: Orchestrator)
        ensures
            r@ == (Plan { settings: config@, strategy }),
    {
        Orchestrator { config, strategy }
    }

    fn enter_generation(&self, tier: Tier) -> (r: BuildState)
        ensures
            r@ == self@.enter_generation(tier),
    {
        match &self.config.target_triple {
            Some(_) => BuildState::Generating(tier),
            None => BuildState::Failed(unset_failure(Stage::Generation, Variable::TargetTriple)),
        }
    }

    fn after_resolution(&self, tier: Tier) -> (r: BuildState)
        ensures
            r@ == self@.after_resolution(tier),
    {
        match tier {
            Tier::Precompiled => self.enter_generation(tier),
            _ => match self.strategy {
                Strategy::Direct => BuildState::Enumerating(tier),
                Strategy::Delegated => BuildState::Delegating(tier),
            },
        }
    }

    fn enter_compilation(&self, tier: Tier, units: Vec<String>) -> (r: BuildState)
        ensures
            r@ == self@.enter_compilation(tier, units.deep_view()),
    {
        proof {
            assert(units.deep_view().len() == units.len());
        }
        if units.len() == 0 {
            BuildState::Failed(
                Failure { stage: Stage::Compilation, kind: FailureKind::PatternMatchFailure },
            )
        } else {
            match &self.config.output_dir {
                None => BuildState::Failed(unset_failure(Stage::Compilation, Variable::OutputDir)),
                Some(_) => BuildState::Compiling(tier, units),
            }
        }
    }

    fn enter_storing(&self, tier: Tier) -> (r: BuildState)
        ensures
            r@ == self@.enter_storing(tier),
    {
        match &self.config.output_dir {
            Some(_) => BuildState::Storing(tier),
            None => BuildState::Failed(unset_failure(Stage::Generation, Variable::OutputDir)),
        }
    }

    fn hand_over(&self, search: resolver::State) -> (r: BuildState)
        ensures
            r@ == self@.hand_over(search),
    {
        match search {
            resolver::State::Resolved(tier) => self.after_resolution(tier),
            resolver::State::Failed(failure) => BuildState::Failed(failure),
            _ => BuildState::Resolving(search),
        }
    }

    fn settled(&self, state: BuildState) -> (r: BuildState)
        ensures
            r@ == self@.settled(state@),
    {
        match state {
            BuildState::Resolving(search) => self.hand_over(search),
            _ => state,
        }
    }

    fn after_process(&self, tier: Tier, status: ExitStatus) -> (r: BuildState)
        ensures
            r@ == self@.after_process(tier, status),
    {
        if status.success() {
            BuildState::Linking(tier)
        } else {
            BuildState::Failed(
                Failure {
                    stage: Stage::Compilation,
                    kind: FailureKind::ExternalProcessFailure(status),
                },
            )
        }
    }

    /// The state in which the build starts.
    pub fn begin(&self) -> (r: BuildState)
        ensures
            r@ == self@.start(),
    {
        self.hand_over(resolver::begin(&self.config))
    }

    /// The state that follows on the report of a step.
    pub fn advance(&self, state: BuildState, event: Event) -> (r: BuildState)
        ensures
            r@ == self@.next(state@, event@),
    {
        match self.settled(state) {
            BuildState::Resolving(search) => self.hand_over(
                resolver::advance(&self.config, search, &event),
            ),
            BuildState::Enumerating(tier) => match event {
                Event::Matched(units) => self.enter_compilation(tier, units),
                Event::Malformed => BuildState::Failed(
                    Failure { stage: Stage::Compilation, kind: FailureKind::PatternMatchFailure },
                ),
                _ => BuildState::Enumerating(tier),
            },
            BuildState::Compiling(tier, units) => match event {
                Event::Exited(status) => self.after_process(tier, status),
                _ => BuildState::Compiling(tier, units),
            },
            BuildState::Delegating(tier) => match event {
                Event::Exited(status) => self.after_process(tier, status),
                _ => BuildState::Delegating(tier),
            },
            BuildState::Linking(tier) => match event {
                Event::Succeeded => self.enter_generation(tier),
                _ => BuildState::Linking(tier),
            },
            BuildState::Generating(tier) => match event {
                Event::Succeeded => self.enter_storing(tier),
                Event::Rejected => BuildState::Failed(
                    Failure { stage: Stage::Generation, kind: FailureKind::TranslationFailure },
                ),
                _ => BuildState::Generating(tier),
            },
            BuildState::Storing(tier) => match event {
                Event::Succeeded => BuildState::Done(tier),
                Event::Rejected => BuildState::Failed(
                    Failure { stage: Stage::Generation, kind: FailureKind::TranslationFailure },
                ),
                _ => BuildState::Storing(tier),
            },
            BuildState::Done(tier) => BuildState::Done(tier),
            BuildState::Failed(failure) => BuildState::Failed(failure),
        }
    }

    fn root(&self, stage: Stage, tier: Tier) -> (r: Result<String, Action>)
        ensures
            match self@.root(stage, tier) {
                Ok(directory) => r matches Ok(found) && found@ == directory,
                Err(abort) => r matches Err(action) && action@ == abort,
            },
    {
        match locate(&self.config, tier) {
            Some(found) => Ok(found.directory().clone()),
            None => Err(Action::Abort(unset_failure(stage, tier.variable()))),
        }
    }

    fn output(&self, stage: Stage) -> (r: Result<String, Action>)
        ensures
            match self@.output(stage) {
                Ok(directory) => r matches Ok(found) && found@ == directory,
                Err(abort) => r matches Err(action) && action@ == abort,
            },
    {
        match &self.config.output_dir {
            Some(directory) => Ok(directory.clone()),
            None => Err(Action::Abort(unset_failure(stage, Variable::OutputDir))),
        }
    }

    fn link_action(&self, tier: Tier) -> (r: Action)
        ensures
            r@ == self@.link_request(tier),
    {
        match self.root(Stage::Compilation, tier) {
            Err(abort) => abort,
            Ok(source) => match self.strategy {
                Strategy::Delegated => {
                    let directory = tool_output_dir(source.as_str());
                    Action::Emit(link_directives(directory.as_str(), &self.config.host_os))
                },
                Strategy::Direct => match self.output(Stage::Compilation) {
                    Err(abort) => abort,
                    Ok(output) => Action::Emit(
                        link_directives(output.as_str(), &self.config.host_os),
                    ),
                },
            },
        }
    }

    fn generate_action(&self, tier: Tier) -> (r: Action)
        ensures
            r@ == self@.generate_request(tier),
    {
        match self.root(Stage::Generation, tier) {
            Err(abort) => abort,
            Ok(source) => match &self.config.target_triple {
                None => Action::Abort(unset_failure(Stage::Generation, Variable::TargetTriple)),
                Some(target) => {
                    let headers = include_dir(&self.config.include_path, source.as_str());
                    Action::Generate(GeneratorConfig::new(headers.as_str(), target.as_str()))
                },
            },
        }
    }

    /// The step that a state waits for.
    pub fn action(&self, state: &BuildState) -> (r: Action)
        ensures
            r@ == self@.request(state@),
    {
        match state {
            BuildState::Resolving(search) => {
                let settled = self.hand_over(*search);
                self.settled_action(&settled)
            },
            _ => self.settled_action(state),
        }
    }

    fn settled_action(&self, state: &BuildState) -> (r: Action)
        ensures
            r@ == self@.settled_request(state@),
    {
        match state {
            BuildState::Resolving(search) => resolver::action(&self.config, *search),
            BuildState::Enumerating(tier) => match self.root(Stage::Compilation, *tier) {
                Err(abort) => abort,
                Ok(source) => Action::Enumerate { pattern: unit_pattern_for(source.as_str()) },
            },
            BuildState::Compiling(tier, units) => match self.root(Stage::Compilation, *tier) {
                Err(abort) => abort,
                Ok(source) => match self.output(Stage::Compilation) {
                    Err(abort) => abort,
                    Ok(output) => Action::Compile(
                        CompileJob::new(source.as_str(), units, output.as_str()),
                    ),
                },
            },
            BuildState::Delegating(tier) => match self.root(Stage::Compilation, *tier) {
                Err(abort) => abort,
                Ok(source) => Action::RunBuildTool {
                    program: BUILD_TOOL.to_owned(),
                    directory: source,
                },
            },
            BuildState::Linking(tier) => self.link_action(*tier),
            BuildState::Generating(tier) => self.generate_action(*tier),
            BuildState::Storing(tier) => match self.output(Stage::Generation) {
                Err(abort) => abort,
                Ok(output) => Action::Store { path: join(output.as_str(), MODULE_FILE) },
            },
            BuildState::Done(tier) => match locate(&self.config, *tier) {
                Some(found) => Action::Finish(found),
                None => Action::Abort(unset_failure(Stage::Generation, tier.variable())),
            },
            BuildState::Failed(failure) => Action::Abort(*failure),
        }
    }
}

} // verus!
