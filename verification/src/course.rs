//! The course of a build as a whole: what it comes to in a given world,
//! and what it asks for on the way.

use vstd::prelude::*;
use crate::bindings::{
    INCLUDE_SUBDIRECTORY,
    MODULE_FILE,
    generator_settings,
    include_directory,
    layout_tests_for,
    policy_for,
};
use crate::builder::{BUILD_TOOL, Strategy, compile_order, unit_pattern};
use crate::config::Variable;
use crate::failure::{Failure, FailureKind, Stage};
use crate::orchestrator::{Phase, Plan, unset};
use crate::path::joined;
use crate::protocol::{Report, Request};
use crate::resolution;
use crate::resolver;
use crate::source::{Location, Tier, location};
use crate::world::World;

verus! {

/// The number of steps that a phase can still be followed by.
pub open spec fn rank(plan: Plan, phase: Phase) -> nat {
    match plan.settled(phase) {
        Phase::Resolving(search) => 5 + resolution::rank(search),
        Phase::Enumerating(_) => 5,
        Phase::Compiling(_, _) => 4,
        Phase::Delegating(_) => 4,
        Phase::Linking(_) => 3,
        Phase::Generating(_) => 2,
        Phase::Storing(_) => 1,
        Phase::Done(_) => 0,
        Phase::Failed(_) => 0,
    }
}

/// The phase that follows `phase` in `world`.
pub open spec fn follow(plan: Plan, world: World, phase: Phase) -> Phase {
    plan.next(phase, world.react(plan.request(phase)))
}

/// The phase in which the build ends when it goes on from `phase`. It
/// goes on for as long as a step brings it nearer to its end, which every
/// step but the last does (`lemma_progress`).
pub open spec fn settle(plan: Plan, world: World, phase: Phase) -> Phase
    decreases rank(plan, phase),
{
    let following = follow(plan, world, phase);
    if rank(plan, following) < rank(plan, phase) {
        settle(plan, world, following)
    } else {
        plan.settled(phase)
    }
}

/// The requests that the build makes when it goes on from `phase`, in
/// order, up to the phase in which it ends.
pub open spec fn steps(plan: Plan, world: World, phase: Phase) -> Seq<Request>
    decreases rank(plan, phase),
{
    let following = follow(plan, world, phase);
    if rank(plan, following) < rank(plan, phase) {
        seq![plan.request(phase)] + steps(plan, world, following)
    } else {
        Seq::empty()
    }
}

/// The phase in which the build ends.
pub open spec fn build(plan: Plan, world: World) -> Phase {
    settle(plan, world, plan.start())
}

/// The requests that the build makes, in order.
pub open spec fn requests(plan: Plan, world: World) -> Seq<Request> {
    steps(plan, world, plan.start())
}

/// Whether a phase has the settings that its request is made of.
pub open spec fn consistent(plan: Plan, phase: Phase) -> bool {
    match phase {
        Phase::Resolving(search) => !search.spec_is_terminal() && resolution::consistent(
            plan.settings,
            search,
        ),
        Phase::Enumerating(tier) => tier != Tier::Precompiled && plan.strategy == Strategy::Direct
            && location(plan.settings, tier) is Some,
        Phase::Compiling(tier, units) => tier != Tier::Precompiled && plan.strategy
            == Strategy::Direct && location(plan.settings, tier) is Some
            && plan.settings.output_dir is Some && units.len() > 0,
        Phase::Delegating(tier) => tier != Tier::Precompiled && plan.strategy
            == Strategy::Delegated && location(plan.settings, tier) is Some,
        Phase::Linking(tier) => tier != Tier::Precompiled && location(plan.settings, tier) is Some
            && (plan.strategy == Strategy::Direct ==> plan.settings.output_dir is Some),
        Phase::Generating(tier) => location(plan.settings, tier) is Some
            && plan.settings.target_triple is Some,
        Phase::Storing(tier) => location(plan.settings, tier) is Some
            && plan.settings.output_dir is Some,
        Phase::Done(tier) => location(plan.settings, tier) is Some,
        Phase::Failed(failure) => failure.kind.spec_is_fatal(),
    }
}

/// The failure to translate the headers or to write the module.
pub open spec fn untranslated() -> Failure {
    Failure { stage: Stage::Generation, kind: FailureKind::TranslationFailure }
}

/// The failure to list the source files.
pub open spec fn unmatched() -> Failure {
    Failure { stage: Stage::Compilation, kind: FailureKind::PatternMatchFailure }
}

/// The request to write the generated module.
pub open spec fn store_request(output: Seq<char>) -> Request {
    Request::Store { path: joined(output, MODULE_FILE@) }
}

/// How the build ends once the headers are translated.
pub open spec fn stored(plan: Plan, world: World, tier: Tier) -> Phase {
    match plan.settings.output_dir {
        None => Phase::Failed(unset(Stage::Generation, Variable::OutputDir)),
        Some(output) => if (world.accepts)(store_request(output)) {
            Phase::Done(tier)
        } else {
            Phase::Failed(untranslated())
        },
    }
}

/// How the build ends once the native library is there to be linked.
pub open spec fn generated(plan: Plan, world: World, tier: Tier) -> Phase {
    if plan.settings.target_triple is None {
        Phase::Failed(unset(Stage::Generation, Variable::TargetTriple))
    } else if (world.accepts)(plan.generate_request(tier)) {
        stored(plan, world, tier)
    } else {
        Phase::Failed(untranslated())
    }
}

/// How the build goes on after the compiler or the build tool has run.
pub open spec fn processed(plan: Plan, world: World, tier: Tier, run: Request) -> Phase {
    let status = (world.status)(run);
    if status.spec_success() {
        generated(plan, world, tier)
    } else {
        Phase::Failed(
            Failure { stage: Stage::Compilation, kind: FailureKind::ExternalProcessFailure(status) },
        )
    }
}

/// How the build ends once sources are found in `source`.
pub open spec fn compiled(plan: Plan, world: World, tier: Tier, source: Seq<char>) -> Phase {
    match plan.strategy {
        Strategy::Delegated => processed(
            plan,
            world,
            tier,
            Request::RunBuildTool { program: BUILD_TOOL@, directory: source },
        ),
        Strategy::Direct => match (world.listing)(unit_pattern(source)) {
            None => Phase::Failed(unmatched()),
            Some(units) => if units.len() == 0 {
                Phase::Failed(unmatched())
            } else {
                match plan.settings.output_dir {
                    None => Phase::Failed(unset(Stage::Compilation, Variable::OutputDir)),
                    Some(output) => processed(
                        plan,
                        world,
                        tier,
                        Request::Compile(compile_order(source, units, output)),
                    ),
                }
            },
        },
    }
}

/// How the build ends once the search has ended in `search`.
pub open spec fn continued(plan: Plan, world: World, search: resolver::State) -> Phase {
    match search {
        resolver::State::Resolved(Tier::Precompiled) => generated(plan, world, Tier::Precompiled),
        resolver::State::Resolved(tier) => match location(plan.settings, tier) {
            Some(found) => compiled(plan, world, tier, found.directory()),
            None => Phase::Failed(unset(Stage::Compilation, tier.spec_variable())),
        },
        resolver::State::Failed(failure) => Phase::Failed(failure),
        _ => Phase::Resolving(search),
    }
}

/// How the build ends: as the search does where that fails; else sources
/// are compiled, built artifacts are not; then the headers are translated
/// and the module is written.
pub open spec fn outcome(plan: Plan, world: World) -> Phase {
    continued(plan, world, resolution::outcome(plan.settings, world))
}

/// The build starts in a phase that has the settings it needs, and every
/// step keeps it in such a phase. In such a phase the build asks to give
/// up only when it has failed, and to finish only when it is done.
pub proof fn lemma_consistent(plan: Plan, phase: Phase, report: Report)
    ensures
        consistent(plan, plan.start()),
        consistent(plan, phase) ==> consistent(plan, plan.next(phase, report)),
        consistent(plan, phase) ==> plan.settled(phase) == phase,
        consistent(plan, phase) ==> (plan.request(phase) is Abort <==> phase is Failed),
        consistent(plan, phase) ==> (plan.request(phase) is Finish <==> phase is Done),
{
    resolution::lemma_consistent(plan.settings, resolver::State::ProbeCache, report);
    if let Phase::Resolving(search) = phase {
        resolution::lemma_consistent(plan.settings, search, report);
    }
}

/// A build that has failed stays failed whatever it is told, and asks
/// for nothing but to give up.
pub proof fn lemma_failure_is_final(plan: Plan, failure: Failure, report: Report)
    ensures
        plan.next(Phase::Failed(failure), report) == Phase::Failed(failure),
        plan.request(Phase::Failed(failure)) == Request::Abort(failure),
{
}

/// Every step but the last brings the build nearer to its end.
pub proof fn lemma_progress(plan: Plan, world: World, phase: Phase)
    requires
        consistent(plan, phase),
        !phase.is_terminal(),
    ensures
        rank(plan, follow(plan, world, phase)) < rank(plan, phase),
{
    if let Phase::Resolving(search) = phase {
        resolution::lemma_progress(plan.settings, world, search);
        resolution::lemma_consistent(
            plan.settings,
            search,
            world.react(resolver::request(plan.settings, search)),
        );
    }
}

/// While the native library is looked for, the build goes as the search
/// goes, and goes on from where the search ends.
pub proof fn lemma_search(plan: Plan, world: World, search: resolver::State)
    requires
        resolution::consistent(plan.settings, search),
    ensures
        settle(plan, world, Phase::Resolving(search)) == settle(
            plan,
            world,
            plan.hand_over(resolution::settle(plan.settings, world, search)),
        ),
        steps(plan, world, Phase::Resolving(search)) == resolution::steps(
            plan.settings,
            world,
            search,
        ) + steps(plan, world, plan.hand_over(resolution::settle(plan.settings, world, search))),
    decreases resolution::rank(search),
{
    let settings = plan.settings;
    let here = Phase::Resolving(search);
    if search.spec_is_terminal() {
        let over = plan.hand_over(search);
        reveal_with_fuel(resolution::settle, 2);
        reveal_with_fuel(resolution::steps, 2);
        assert(resolution::settle(settings, world, search) == search);
        assert(resolution::steps(settings, world, search) =~= Seq::<Request>::empty());
        assert(plan.settled(here) == plan.settled(over));
        assert(follow(plan, world, here) == follow(plan, world, over));
        assert(rank(plan, here) == rank(plan, over));
        assert(settle(plan, world, here) == settle(plan, world, over));
        assert(steps(plan, world, here) == steps(plan, world, over));
        assert(Seq::<Request>::empty() + steps(plan, world, over) =~= steps(plan, world, over));
    } else {
        let following = resolution::follow(settings, world, search);
        resolution::lemma_progress(settings, world, search);
        resolution::lemma_consistent(
            settings,
            search,
            world.react(resolver::request(settings, search)),
        );
        assert(follow(plan, world, here) == plan.hand_over(following));
        assert(rank(plan, plan.hand_over(following)) < rank(plan, here));
        let onward = Phase::Resolving(following);
        let over = plan.hand_over(following);
        assert(plan.settled(onward) == plan.settled(over));
        assert(follow(plan, world, onward) == follow(plan, world, over));
        assert(rank(plan, onward) == rank(plan, over));
        assert(settle(plan, world, onward) == settle(plan, world, over));
        assert(steps(plan, world, onward) == steps(plan, world, over));
        lemma_search(plan, world, following);
        let rest = steps(
            plan,
            world,
            plan.hand_over(resolution::settle(settings, world, following)),
        );
        assert(steps(plan, world, here) == seq![plan.request(here)] + steps(plan, world, over));
        assert(resolution::steps(settings, world, search) == seq![
            resolver::request(settings, search),
        ] + resolution::steps(settings, world, following));
        assert(seq![plan.request(here)] + (resolution::steps(settings, world, following) + rest)
            =~= (seq![resolver::request(settings, search)] + resolution::steps(
            settings,
            world,
            following,
        )) + rest);
    }
}

/// The build always ends, and it ends as the order of its parts
/// prescribes: the search, the compilation of sources, the translation of
/// the headers, the writing of the module; the first failure is the end.
pub proof fn lemma_build(plan: Plan, world: World)
    ensures
        build(plan, world) == outcome(plan, world),
        build(plan, world).is_terminal(),
        consistent(plan, build(plan, world)),
{
    let settings = plan.settings;
    resolution::lemma_consistent(settings, resolver::State::ProbeCache, Report::Succeeded);
    resolution::lemma_resolution(settings, world);
    lemma_search(plan, world, resolver::start(settings));
    lemma_start(plan, world);
    let search = resolution::outcome(settings, world);
    assert(build(plan, world) == settle(plan, world, plan.hand_over(search)));
    reveal_with_fuel(settle, 7);
}

/// The build starts where the search starts.
proof fn lemma_start(plan: Plan, world: World)
    ensures
        build(plan, world) == settle(plan, world, Phase::Resolving(resolver::start(plan.settings))),
        requests(plan, world) == steps(
            plan,
            world,
            Phase::Resolving(resolver::start(plan.settings)),
        ),
{
    let first = resolver::start(plan.settings);
    let here = Phase::Resolving(first);
    let over = plan.hand_over(first);
    assert(plan.settled(here) == plan.settled(over));
    assert(follow(plan, world, here) == follow(plan, world, over));
    assert(rank(plan, here) == rank(plan, over));
}

/// The requests of a build are those of the search, followed by those
/// that are made once the search has ended.
pub proof fn lemma_requests(plan: Plan, world: World)
    ensures
        requests(plan, world) == resolution::requests(plan.settings, world) + steps(
            plan,
            world,
            plan.hand_over(resolution::resolve(plan.settings, world)),
        ),
{
    resolution::lemma_consistent(plan.settings, resolver::State::ProbeCache, Report::Succeeded);
    lemma_search(plan, world, resolver::start(plan.settings));
    lemma_start(plan, world);
}

/// Whether a request belongs to the compilation of sources.
pub open spec fn compiles(asked: Request) -> bool {
    asked is Enumerate || asked is Compile || asked is RunBuildTool || asked is Emit
}

/// Whether a request belongs to the making of the generated module.
pub open spec fn generates(asked: Request) -> bool {
    asked is Generate || asked is Store
}

/// Built artifacts are taken as they are: where the directory named as
/// holding them exists, nothing is compiled and the linker is told
/// nothing. The build probes that directory and goes on to translate the
/// headers, which it looks up in the directory that was asked for, else
/// in the include directory below the one that holds the artifacts.
pub proof fn lemma_precompiled_skips_compilation(
    plan: Plan,
    world: World,
    directory: Seq<char>,
    target: Seq<char>,
)
    requires
        plan.settings.precompiled_path == Some(directory),
        plan.settings.target_triple == Some(target),
        world.paths.contains(directory),
    ensures
        forall|i: int|
            0 <= i < requests(plan, world).len() ==> !compiles(
                #[trigger] requests(plan, world)[i],
            ),
        requests(plan, world).len() >= 2,
        requests(plan, world)[0] == (Request::Probe { path: directory }),
        requests(plan, world)[1] == Request::Generate(
            generator_settings(include_directory(plan.settings.include_path, directory), target),
        ),
        plan.settings.include_path is None ==> requests(plan, world)[1] == Request::Generate(
            generator_settings(joined(directory, INCLUDE_SUBDIRECTORY@), target),
        ),
        build(plan, world) == generated(plan, world, Tier::Precompiled),
{
    let settings = plan.settings;
    lemma_build(plan, world);
    lemma_requests(plan, world);
    resolution::lemma_precompiled_first(settings, world, directory);
    let all = requests(plan, world);
    let rest = steps(plan, world, plan.hand_over(resolver::State::Resolved(Tier::Precompiled)));
    reveal_with_fuel(steps, 4);
    assert(all == seq![Request::Probe { path: directory }] + rest);
    assert(rest.len() >= 1);
    assert(rest[0] == plan.generate_request(Tier::Precompiled));
    assert(all[1] == rest[0]);
    assert forall|i: int| 0 <= i < all.len() implies !compiles(#[trigger] all[i]) by {
        if i >= 1 {
            assert(all[i] == rest[i - 1]);
        }
    }
}

/// A build that fails before the headers are translated makes no module:
/// it never asks to translate the headers or to write what was generated.
pub proof fn lemma_no_module_after_failure(plan: Plan, world: World, failure: Failure)
    requires
        build(plan, world) == Phase::Failed(failure),
        failure.stage != Stage::Generation,
    ensures
        forall|i: int|
            0 <= i < requests(plan, world).len() ==> !generates(
                #[trigger] requests(plan, world)[i],
            ),
{
    let settings = plan.settings;
    lemma_build(plan, world);
    lemma_requests(plan, world);
    resolution::lemma_resolution(settings, world);
    let all = requests(plan, world);
    let head = resolution::requests(settings, world);
    let rest = steps(plan, world, plan.hand_over(resolution::resolve(settings, world)));
    reveal_with_fuel(steps, 7);
    reveal_with_fuel(settle, 7);
    assert forall|i: int| 0 <= i < all.len() implies !generates(#[trigger] all[i]) by {
        if i < head.len() {
            resolution::lemma_search_requests(settings, world, i);
            assert(all[i] == head[i]);
        } else {
            assert(all[i] == rest[i - head.len()]);
        }
    }
}

/// The request that runs the compiler or the build tool over the sources
/// in `source`, where the build comes to make it.
pub open spec fn run_request(plan: Plan, world: World, source: Seq<char>) -> Option<Request> {
    match plan.strategy {
        Strategy::Delegated => Some(
            Request::RunBuildTool { program: BUILD_TOOL@, directory: source },
        ),
        Strategy::Direct => match ((world.listing)(unit_pattern(source)), plan.settings.output_dir) {
            (Some(units), Some(output)) => if units.len() > 0 {
                Some(Request::Compile(compile_order(source, units, output)))
            } else {
                None
            },
            _ => None,
        },
    }
}

/// A compiler or build tool that ends without success ends the build
/// with its exit status, and no module is made.
pub proof fn lemma_compiler_failure(
    plan: Plan,
    world: World,
    tier: Tier,
    found: Location,
    run: Request,
)
    requires
        resolution::resolve(plan.settings, world) == resolver::State::Resolved(tier),
        tier != Tier::Precompiled,
        location(plan.settings, tier) == Some(found),
        run_request(plan, world, found.directory()) == Some(run),
        !(world.status)(run).spec_success(),
    ensures
        build(plan, world) == Phase::Failed(
            Failure {
                stage: Stage::Compilation,
                kind: FailureKind::ExternalProcessFailure((world.status)(run)),
            },
        ),
        requests(plan, world).contains(run),
        forall|i: int|
            0 <= i < requests(plan, world).len() ==> !generates(
                #[trigger] requests(plan, world)[i],
            ),
{
    let settings = plan.settings;
    lemma_build(plan, world);
    resolution::lemma_resolution(settings, world);
    let failure = Failure {
        stage: Stage::Compilation,
        kind: FailureKind::ExternalProcessFailure((world.status)(run)),
    };
    assert(build(plan, world) == Phase::Failed(failure));
    lemma_no_module_after_failure(plan, world, failure);
    lemma_requests(plan, world);
    let head = resolution::requests(settings, world);
    let rest = steps(plan, world, plan.hand_over(resolution::resolve(settings, world)));
    reveal_with_fuel(steps, 4);
    let all = requests(plan, world);
    match plan.strategy {
        Strategy::Delegated => {
            assert(rest[0] == run);
            assert(all[head.len() as int] == rest[0]);
        },
        Strategy::Direct => {
            assert(rest[1] == run);
            assert(all[head.len() as int + 1] == rest[1]);
        },
    }
}

/// Whenever a build asks to translate the headers, it asks for layout
/// self-tests exactly when the target is none of the two whose types are
/// deliberately unaligned, and for every other rule as it always stands.
pub proof fn lemma_layout_tests(plan: Plan, world: World, i: int)
    requires
        0 <= i < requests(plan, world).len(),
        requests(plan, world)[i] is Generate,
    ensures
        plan.settings.target_triple is Some,
        requests(plan, world)[i]->Generate_0.policy == policy_for(
            plan.settings.target_triple->0,
        ),
        requests(plan, world)[i]->Generate_0.policy.layout_tests == layout_tests_for(
            plan.settings.target_triple->0,
        ),
{
    let settings = plan.settings;
    lemma_requests(plan, world);
    resolution::lemma_resolution(settings, world);
    let all = requests(plan, world);
    let head = resolution::requests(settings, world);
    let rest = steps(plan, world, plan.hand_over(resolution::resolve(settings, world)));
    reveal_with_fuel(steps, 7);
    if i < head.len() {
        resolution::lemma_search_requests(settings, world, i);
        assert(all[i] == head[i]);
    } else {
        assert(all[i] == rest[i - head.len()]);
    }
}

} // verus!
