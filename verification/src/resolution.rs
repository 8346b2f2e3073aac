//! The search for the native library as a whole: what it comes to in a
//! given world, whatever the steps in between.

use vstd::prelude::*;
use crate::config::{DEFAULT_REVISION, Settings, UPSTREAM_URL, Variable};
use crate::path::joined;
use crate::protocol::{Report, Request};
use crate::resolver::{BUILD_DESCRIPTOR, State, next, request, start, unset, unsuccessful};
use crate::source::{Location, Tier, cache_directory, location};
use crate::world::World;

verus! {

/// The number of steps that a state can still be followed by.
pub open spec fn rank(state: State) -> nat {
    match state {
        State::ProbePrecompiled => 5,
        State::ProbeSource => 4,
        State::ProbeCache => 3,
        State::Cloning => 2,
        State::Fetching => 2,
        State::CheckingOut => 1,
        State::Resolved(_) => 0,
        State::Failed(_) => 0,
    }
}

/// The state that follows `state` in `world`.
pub open spec fn follow(settings: Settings, world: World, state: State) -> State {
    next(settings, state, world.react(request(settings, state)))
}

/// The state in which the search ends when it goes on from `state`. It
/// goes on for as long as a step brings it nearer to its end, which every
/// step but the last does (`lemma_progress`).
pub open spec fn settle(settings: Settings, world: World, state: State) -> State
    decreases rank(state),
{
    let following = follow(settings, world, state);
    if rank(following) < rank(state) {
        settle(settings, world, following)
    } else {
        state
    }
}

/// The requests that the search makes when it goes on from `state`, in
/// order, up to the state in which it ends.
pub open spec fn steps(settings: Settings, world: World, state: State) -> Seq<Request>
    decreases rank(state),
{
    let following = follow(settings, world, state);
    if rank(following) < rank(state) {
        seq![request(settings, state)] + steps(settings, world, following)
    } else {
        Seq::empty()
    }
}

/// The state in which the search ends.
pub open spec fn resolve(settings: Settings, world: World) -> State {
    settle(settings, world, start(settings))
}

/// The requests that the search makes, in order.
pub open spec fn requests(settings: Settings, world: World) -> Seq<Request> {
    steps(settings, world, start(settings))
}

/// Whether a state has the settings that its request is made of.
pub open spec fn consistent(settings: Settings, state: State) -> bool {
    match state {
        State::ProbePrecompiled => settings.precompiled_path is Some,
        State::ProbeSource => settings.source_path is Some,
        State::ProbeCache => settings.output_dir is Some,
        State::Cloning => settings.output_dir is Some,
        State::Fetching => settings.output_dir is Some,
        State::CheckingOut => settings.output_dir is Some,
        State::Resolved(tier) => location(settings, tier) is Some,
        State::Failed(failure) => failure.kind.spec_is_fatal(),
    }
}

/// Whether a setting names a path that exists.
pub open spec fn present(setting: Option<Seq<char>>, paths: Set<Seq<char>>) -> bool {
    setting matches Some(path) && paths.contains(path)
}

/// The place that is taken: the first of the three that is there.
pub open spec fn selected(settings: Settings, paths: Set<Seq<char>>) -> Tier {
    if present(settings.precompiled_path, paths) {
        Tier::Precompiled
    } else if present(settings.source_path, paths) {
        Tier::Source
    } else {
        Tier::Cache
    }
}

/// How the source tree in `directory` is brought about: by fetching into
/// it where it has been cloned before, by cloning where it has not.
pub open spec fn synchronise(world: World, directory: Seq<char>) -> Request {
    if world.paths.contains(joined(directory, BUILD_DESCRIPTOR@)) {
        Request::FetchUpdates { directory }
    } else {
        Request::CloneRepository { url: UPSTREAM_URL@, directory }
    }
}

/// The request that checks the revision out in `directory`.
pub open spec fn checkout(settings: Settings, directory: Seq<char>) -> Request {
    Request::CheckoutRevision { directory, revision: settings.revision() }
}

/// How the search ends when it has to bring about a source tree of its own.
pub open spec fn fetched(settings: Settings, world: World) -> State {
    match cache_directory(settings) {
        None => State::Failed(unset(Variable::OutputDir)),
        Some(directory) => {
            let first = (world.status)(synchronise(world, directory));
            let second = (world.status)(checkout(settings, directory));
            if !first.spec_success() {
                State::Failed(unsuccessful(first))
            } else if !second.spec_success() {
                State::Failed(unsuccessful(second))
            } else {
                State::Resolved(Tier::Cache)
            }
        },
    }
}

/// How the search ends: with the first named directory that exists, else
/// with what comes of bringing about a source tree of its own.
pub open spec fn outcome(settings: Settings, world: World) -> State {
    match selected(settings, world.paths) {
        Tier::Precompiled => State::Resolved(Tier::Precompiled),
        Tier::Source => State::Resolved(Tier::Source),
        Tier::Cache => fetched(settings, world),
    }
}

/// The search starts in a state that has the settings it needs, and every
/// step keeps it in such a state. In such a state the search asks to give
/// up only when it has failed, and then with a failure that is fatal.
pub proof fn lemma_consistent(settings: Settings, state: State, report: Report)
    ensures
        consistent(settings, start(settings)),
        consistent(settings, state) ==> consistent(settings, next(settings, state, report)),
        consistent(settings, state) ==> (request(settings, state) is Abort <==> state is Failed),
        consistent(settings, state) ==> (state is Resolved <==> request(settings, state) is Finish),
{
}

/// Every step but the last brings the search nearer to its end: from a
/// state that has the settings it needs, what the world reports leads to a
/// state of lower rank.
pub proof fn lemma_progress(settings: Settings, world: World, state: State)
    requires
        consistent(settings, state),
        !state.spec_is_terminal(),
    ensures
        rank(follow(settings, world, state)) < rank(state),
{
}

/// The search always ends, and it ends in exactly the state that the
/// order of the three places prescribes.
pub proof fn lemma_resolution(settings: Settings, world: World)
    ensures
        resolve(settings, world) == outcome(settings, world),
        resolve(settings, world).spec_is_terminal(),
        consistent(settings, resolve(settings, world)),
{
    reveal_with_fuel(settle, 6);
}

/// A directory of built artifacts that is named and exists is taken,
/// whatever else is named or exists.
pub proof fn lemma_precompiled_first(settings: Settings, world: World, directory: Seq<char>)
    requires
        settings.precompiled_path == Some(directory),
        world.paths.contains(directory),
    ensures
        resolve(settings, world) == State::Resolved(Tier::Precompiled),
        request(settings, resolve(settings, world)) == Request::Finish(
            Location::Precompiled(directory),
        ),
        requests(settings, world) == seq![Request::Probe { path: directory }],
{
    reveal_with_fuel(settle, 6);
    reveal_with_fuel(steps, 6);
    assert(requests(settings, world) =~= seq![Request::Probe { path: directory }]);
}

/// A directory of sources that is named and exists is taken when no
/// directory of built artifacts is there, whatever the output directory
/// holds.
pub proof fn lemma_source_second(settings: Settings, world: World, directory: Seq<char>)
    requires
        !present(settings.precompiled_path, world.paths),
        settings.source_path == Some(directory),
        world.paths.contains(directory),
    ensures
        resolve(settings, world) == State::Resolved(Tier::Source),
        request(settings, resolve(settings, world)) == Request::Finish(Location::Raw(directory)),
        forall|i: int|
            0 <= i < requests(settings, world).len() ==> #[trigger] requests(
                settings,
                world,
            )[i] is Probe,
{
    reveal_with_fuel(settle, 6);
    reveal_with_fuel(steps, 6);
}

/// Where neither named directory is there, the search brings about a
/// source tree of its own below the output directory, and takes it when
/// the processes succeed.
pub proof fn lemma_cache_last(settings: Settings, world: World, output: Seq<char>)
    requires
        !present(settings.precompiled_path, world.paths),
        !present(settings.source_path, world.paths),
        settings.output_dir == Some(output),
        world.reliable(),
    ensures
        resolve(settings, world) == State::Resolved(Tier::Cache),
        cache_directory(settings) matches Some(directory) && request(
            settings,
            resolve(settings, world),
        ) == Request::Finish(Location::Raw(directory)),
{
    lemma_resolution(settings, world);
    let directory = cache_directory(settings)->0;
    assert((world.status)(synchronise(world, directory)).spec_success());
    assert((world.status)(checkout(settings, directory)).spec_success());
}

/// The requests that bring about the source tree: whether it was cloned
/// before is probed, it is then fetched into or cloned, and last the
/// revision is checked out.
pub proof fn lemma_cache_requests(settings: Settings, world: World, directory: Seq<char>)
    requires
        selected(settings, world.paths) == Tier::Cache,
        cache_directory(settings) == Some(directory),
        world.reliable(),
    ensures
        requests(settings, world).len() >= 3,
        requests(settings, world).subrange(
            requests(settings, world).len() - 3,
            requests(settings, world).len() as int,
        ) == seq![
            Request::Probe { path: joined(directory, BUILD_DESCRIPTOR@) },
            synchronise(world, directory),
            checkout(settings, directory),
        ],
        forall|i: int|
            0 <= i < requests(settings, world).len() - 3 ==> #[trigger] requests(
                settings,
                world,
            )[i] is Probe,
{
    reveal_with_fuel(settle, 6);
    reveal_with_fuel(steps, 6);
    let all = requests(settings, world);
    let tail = seq![
        Request::Probe { path: joined(directory, BUILD_DESCRIPTOR@) },
        synchronise(world, directory),
        checkout(settings, directory),
    ];
    assert((world.status)(synchronise(world, directory)).spec_success());
    assert((world.status)(checkout(settings, directory)).spec_success());
    assert(steps(settings, world, State::ProbeCache) =~= tail);
    if settings.precompiled_path is Some {
        if settings.source_path is Some {
            assert(all =~= seq![
                Request::Probe { path: settings.precompiled_path->0 },
                Request::Probe { path: settings.source_path->0 },
            ] + tail);
        } else {
            assert(all =~= seq![Request::Probe { path: settings.precompiled_path->0 }] + tail);
        }
    } else {
        if settings.source_path is Some {
            assert(all =~= seq![Request::Probe { path: settings.source_path->0 }] + tail);
        } else {
            assert(all =~= tail);
        }
    }
    assert(all.subrange(all.len() - 3, all.len() as int) =~= tail);
}

/// A search that is repeated over a source tree that is already there
/// comes to the same end as before, and it fetches where it would
/// otherwise clone: no request of the second search is one to clone.
pub proof fn lemma_repeat(settings: Settings, first: World, second: World)
    requires
        present(settings.precompiled_path, first.paths) == present(
            settings.precompiled_path,
            second.paths,
        ),
        present(settings.source_path, first.paths) == present(
            settings.source_path,
            second.paths,
        ),
        resolve(settings, first) is Resolved,
        second.reliable(),
        cache_directory(settings) matches Some(directory) ==> second.paths.contains(
            joined(directory, BUILD_DESCRIPTOR@),
        ),
    ensures
        resolve(settings, second) == resolve(settings, first),
        request(settings, resolve(settings, second)) == request(
            settings,
            resolve(settings, first),
        ),
        forall|i: int|
            0 <= i < requests(settings, second).len() ==> !(#[trigger] requests(
                settings,
                second,
            )[i] is CloneRepository),
        selected(settings, second.paths) == Tier::Cache ==> requests(settings, second).contains(
            Request::FetchUpdates { directory: cache_directory(settings)->0 },
        ),
{
    lemma_resolution(settings, first);
    lemma_resolution(settings, second);
    let all = requests(settings, second);
    if selected(settings, second.paths) == Tier::Cache {
        let directory = cache_directory(settings)->0;
        assert((second.status)(synchronise(second, directory)).spec_success());
        assert((second.status)(checkout(settings, directory)).spec_success());
        lemma_cache_requests(settings, second, directory);
        let n = all.len();
        let tail = all.subrange(n - 3, n as int);
        assert(tail[1] == all[n - 2]);
        assert(all[n - 2] == Request::FetchUpdates { directory });
        assert forall|i: int| 0 <= i < n implies !(#[trigger] all[i] is CloneRepository) by {
            if i >= n - 3 {
                assert(all[i] == tail[i - (n - 3)]);
            }
        }
    } else {
        reveal_with_fuel(settle, 6);
        reveal_with_fuel(steps, 6);
    }
}

/// The revision that is checked out is the one that the settings ask for,
/// and the default one where they ask for none.
pub proof fn lemma_default_pin(settings: Settings, world: World, i: int)
    requires
        0 <= i < requests(settings, world).len(),
        requests(settings, world)[i] is CheckoutRevision,
    ensures
        requests(settings, world)[i]->CheckoutRevision_revision == settings.revision(),
        settings.revision_hash is None ==> requests(
            settings,
            world,
        )[i]->CheckoutRevision_revision == DEFAULT_REVISION@,
{
    reveal_with_fuel(settle, 6);
    reveal_with_fuel(steps, 6);
}

/// The search asks for nothing but to probe a path, to clone, to fetch
/// and to check out.
pub proof fn lemma_search_requests(settings: Settings, world: World, i: int)
    requires
        0 <= i < requests(settings, world).len(),
    ensures
        ({
            let asked = requests(settings, world)[i];
            asked is Probe || asked is CloneRepository || asked is FetchUpdates
                || asked is CheckoutRevision
        }),
{
    reveal_with_fuel(settle, 6);
    reveal_with_fuel(steps, 6);
}

} // verus!
