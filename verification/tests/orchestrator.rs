use bearssl_build::bindings::GeneratorConfig;
use bearssl_build::builder::{
    link_directives, needs_relaxed_linkage, tool_output_dir, unit_pattern_for, CompileJob,
    Directive, Strategy,
};
use bearssl_build::config::{EnvironmentConfiguration, Variable};
use bearssl_build::failure::{ExitStatus, Failure, FailureKind, Stage};
use bearssl_build::orchestrator::{BuildState, Orchestrator};
use bearssl_build::protocol::{Action, Event};
use bearssl_build::resolver::State;
use bearssl_build::source::{SourceLocation, Tier};

fn text(s: &str) -> Option<String> {
    Some(s.to_string())
}

fn texts(all: &[&str]) -> Vec<String> {
    all.iter().map(|s| s.to_string()).collect()
}

fn configuration(settings: &[(Variable, &str)]) -> EnvironmentConfiguration {
    let mut config = EnvironmentConfiguration::new();
    for (variable, value) in settings {
        config.set(*variable, text(value));
    }
    config
}

/// The surroundings of a build in a test.
struct Surroundings {
    existing: Vec<&'static str>,
    units: Option<Vec<String>>,
    git: i32,
    compiler: i32,
    translates: bool,
    writes: bool,
}

fn friendly() -> Surroundings {
    Surroundings {
        existing: Vec::new(),
        units: Some(texts(&["/src/bearssl/src/hash/sha2small.c", "/src/bearssl/src/rand/hmac_drbg.c"])),
        git: 0,
        compiler: 0,
        translates: true,
        writes: true,
    }
}

fn accepted(ok: bool) -> Event {
    if ok {
        Event::Succeeded
    } else {
        Event::Rejected
    }
}

fn run(build: &Orchestrator, world: &Surroundings) -> (BuildState, Vec<Action>) {
    let mut state = build.begin();
    let mut asked = Vec::new();
    while !state.is_terminal() {
        let step = build.action(&state);
        let event = match &step {
            Action::Probe { path } => Event::Exists(world.existing.contains(&path.as_str())),
            Action::CloneRepository { .. }
            | Action::FetchUpdates { .. }
            | Action::CheckoutRevision { .. } => {
                Event::Exited(ExitStatus { code: Some(world.git) })
            }
            Action::Enumerate { .. } => match &world.units {
                Some(units) => Event::Matched(units.clone()),
                None => Event::Malformed,
            },
            Action::Compile(_) | Action::RunBuildTool { .. } => {
                Event::Exited(ExitStatus { code: Some(world.compiler) })
            }
            Action::Emit(_) => Event::Succeeded,
            Action::Generate(_) => accepted(world.translates),
            Action::Store { .. } => accepted(world.writes),
            Action::Finish(_) | Action::Abort(_) => unreachable!(),
        };
        asked.push(step);
        state = build.advance(state, event);
    }
    (state, asked)
}

fn failed(stage: Stage, kind: FailureKind) -> BuildState {
    BuildState::Failed(Failure { stage, kind })
}

#[test]
fn precompiled_build_skips_the_compiler() {
    let config = configuration(&[
        (Variable::PrecompiledPath, "/opt/lib"),
        (Variable::TargetTriple, "x86_64-unknown-linux-gnu"),
        (Variable::OutputDir, "/out"),
    ]);
    let build = Orchestrator::new(config, Strategy::Direct);
    let world = Surroundings { existing: vec!["/opt/lib"], ..friendly() };
    let (state, asked) = run(&build, &world);
    assert_eq!(state, BuildState::Done(Tier::Precompiled));
    assert_eq!(
        asked,
        vec![
            Action::Probe { path: "/opt/lib".to_string() },
            Action::Generate(GeneratorConfig::new("/opt/lib/inc", "x86_64-unknown-linux-gnu")),
            Action::Store { path: "/out/bindings.rs".to_string() },
        ]
    );
    match &asked[1] {
        Action::Generate(told) => assert_eq!(told.include_dir, "/opt/lib/inc"),
        other => panic!("unexpected action {:?}", other),
    }
    assert_eq!(
        build.action(&state),
        Action::Finish(SourceLocation::Precompiled("/opt/lib".to_string()))
    );
}

#[test]
fn fresh_build_clones_compiles_and_generates() {
    let config = configuration(&[
        (Variable::TargetTriple, "x86_64-unknown-linux-gnu"),
        (Variable::OutputDir, "/out"),
    ]);
    let build = Orchestrator::new(config, Strategy::Direct);
    let world = friendly();
    let (state, asked) = run(&build, &world);
    assert_eq!(state, BuildState::Done(Tier::Cache));
    let units = world.units.clone().unwrap();
    assert_eq!(
        asked,
        vec![
            Action::Probe { path: "/out/deps/bearssl/Makefile".to_string() },
            Action::CloneRepository {
                url: "https://www.bearssl.org/git/BearSSL".to_string(),
                directory: "/out/deps/bearssl".to_string(),
            },
            Action::CheckoutRevision {
                directory: "/out/deps/bearssl".to_string(),
                revision: "79c060eea3eea1257797f15ea1608a9a9923aa6f".to_string(),
            },
            Action::Enumerate { pattern: "/out/deps/bearssl/src/**/*.c".to_string() },
            Action::Compile(CompileJob {
                include_dirs: texts(&["/out/deps/bearssl/inc", "/out/deps/bearssl/src"]),
                units,
                optimisation: "s".to_string(),
                archive: "bearssl".to_string(),
                output_dir: "/out".to_string(),
            }),
            Action::Emit(vec![
                Directive::LinkSearch("/out".to_string()),
                Directive::LinkStatic("bearssl".to_string()),
            ]),
            Action::Generate(GeneratorConfig::new(
                "/out/deps/bearssl/inc",
                "x86_64-unknown-linux-gnu"
            )),
            Action::Store { path: "/out/bindings.rs".to_string() },
        ]
    );
    assert_eq!(
        build.action(&state),
        Action::Finish(SourceLocation::Raw("/out/deps/bearssl".to_string()))
    );
}

#[test]
fn repeated_build_fetches_and_ends_the_same() {
    let config = configuration(&[
        (Variable::TargetTriple, "x86_64-unknown-linux-gnu"),
        (Variable::OutputDir, "/out"),
    ]);
    let build = Orchestrator::new(config, Strategy::Direct);
    let (first, _) = run(&build, &friendly());
    let populated = Surroundings { existing: vec!["/out/deps/bearssl/Makefile"], ..friendly() };
    let (second, asked) = run(&build, &populated);
    assert_eq!(second, first);
    assert_eq!(build.action(&second), build.action(&first));
    assert_eq!(asked[1], Action::FetchUpdates { directory: "/out/deps/bearssl".to_string() });
    assert!(!asked.iter().any(|a| matches!(a, Action::CloneRepository { .. })));
    assert_eq!(
        asked[2],
        Action::CheckoutRevision {
            directory: "/out/deps/bearssl".to_string(),
            revision: "79c060eea3eea1257797f15ea1608a9a9923aa6f".to_string(),
        }
    );
}

#[test]
fn compiler_failure_aborts_with_its_exit_status() {
    let config = configuration(&[
        (Variable::SourcePath, "/src/bearssl"),
        (Variable::TargetTriple, "x86_64-unknown-linux-gnu"),
        (Variable::OutputDir, "/out"),
    ]);
    let build = Orchestrator::new(config, Strategy::Direct);
    let world = Surroundings { existing: vec!["/src/bearssl"], compiler: 1, ..friendly() };
    let (state, asked) = run(&build, &world);
    let failure = Failure {
        stage: Stage::Compilation,
        kind: FailureKind::ExternalProcessFailure(ExitStatus { code: Some(1) }),
    };
    assert_eq!(state, BuildState::Failed(failure));
    assert!(matches!(asked.last(), Some(Action::Compile(_))));
    assert!(!asked.iter().any(|a| matches!(a, Action::Generate(_) | Action::Store { .. })));
    assert_eq!(build.action(&state), Action::Abort(failure));
    for event in [
        Event::Succeeded,
        Event::Exists(true),
        Event::Exited(ExitStatus { code: Some(0) }),
        Event::Matched(texts(&["a.c"])),
    ] {
        let after = build.advance(state.clone(), event);
        assert_eq!(after, state);
        assert_eq!(build.action(&after), Action::Abort(failure));
    }
    assert_eq!(failure.message(), "compilation: process exited unsuccessfully: exit status: 1");
}

#[test]
fn ios_target_disables_layout_tests_in_the_build() {
    for (target, expected) in [
        ("aarch64-apple-ios", false),
        ("aarch64-apple-ios-sim", false),
        ("x86_64-unknown-linux-gnu", true),
    ] {
        let config = configuration(&[
            (Variable::PrecompiledPath, "/opt/lib"),
            (Variable::TargetTriple, target),
            (Variable::OutputDir, "/out"),
        ]);
        let build = Orchestrator::new(config, Strategy::Delegated);
        let world = Surroundings { existing: vec!["/opt/lib"], ..friendly() };
        let (_, asked) = run(&build, &world);
        match &asked[1] {
            Action::Generate(told) => assert_eq!(told.policy.layout_tests, expected),
            other => panic!("unexpected action {:?}", other),
        }
    }
}

#[test]
fn delegated_build_runs_the_build_tool() {
    let config = configuration(&[
        (Variable::SourcePath, "/src/bearssl"),
        (Variable::TargetTriple, "x86_64-apple-darwin"),
        (Variable::HostOs, "macos"),
        (Variable::OutputDir, "/out"),
    ]);
    let build = Orchestrator::new(config, Strategy::Delegated);
    let world = Surroundings { existing: vec!["/src/bearssl"], ..friendly() };
    let (state, asked) = run(&build, &world);
    assert_eq!(state, BuildState::Done(Tier::Source));
    assert_eq!(
        asked,
        vec![
            Action::Probe { path: "/src/bearssl".to_string() },
            Action::RunBuildTool {
                program: "make".to_string(),
                directory: "/src/bearssl".to_string(),
            },
            Action::Emit(vec![
                Directive::LinkSearch("/src/bearssl/build".to_string()),
                Directive::LinkStatic("bearssl".to_string()),
                Directive::AllowUndefined,
            ]),
            Action::Generate(GeneratorConfig::new("/src/bearssl/inc", "x86_64-apple-darwin")),
            Action::Store { path: "/out/bindings.rs".to_string() },
        ]
    );
}

#[test]
fn build_tool_failure_aborts_with_its_exit_status() {
    let config = configuration(&[
        (Variable::SourcePath, "/src/bearssl"),
        (Variable::TargetTriple, "x86_64-unknown-linux-gnu"),
    ]);
    let build = Orchestrator::new(config, Strategy::Delegated);
    let world = Surroundings { existing: vec!["/src/bearssl"], compiler: 2, ..friendly() };
    let (state, asked) = run(&build, &world);
    assert_eq!(
        state,
        failed(
            Stage::Compilation,
            FailureKind::ExternalProcessFailure(ExitStatus { code: Some(2) })
        )
    );
    assert_eq!(asked.len(), 2);
}

#[test]
fn header_directory_override_is_used() {
    let config = configuration(&[
        (Variable::PrecompiledPath, "/opt/lib"),
        (Variable::IncludePath, "/usr/include/bearssl"),
        (Variable::TargetTriple, "x86_64-unknown-linux-gnu"),
        (Variable::OutputDir, "/out"),
    ]);
    let build = Orchestrator::new(config, Strategy::Direct);
    assert_eq!(
        build.action(&BuildState::Generating(Tier::Precompiled)),
        Action::Generate(GeneratorConfig::new("/usr/include/bearssl", "x86_64-unknown-linux-gnu"))
    );
}

#[test]
fn no_matching_source_file_is_fatal() {
    let config = configuration(&[
        (Variable::SourcePath, "/src/bearssl"),
        (Variable::TargetTriple, "x86_64-unknown-linux-gnu"),
        (Variable::OutputDir, "/out"),
    ]);
    let build = Orchestrator::new(config, Strategy::Direct);
    let unmatched = failed(Stage::Compilation, FailureKind::PatternMatchFailure);
    let empty = Surroundings { existing: vec!["/src/bearssl"], units: Some(Vec::new()), ..friendly() };
    let (state, asked) = run(&build, &empty);
    assert_eq!(state, unmatched);
    assert_eq!(asked.last(), Some(&Action::Enumerate { pattern: "/src/bearssl/src/**/*.c".to_string() }));
    let malformed = Surroundings { existing: vec!["/src/bearssl"], units: None, ..friendly() };
    let (state, _) = run(&build, &malformed);
    assert_eq!(state, unmatched);
}

#[test]
fn translation_failure_is_fatal() {
    let config = configuration(&[
        (Variable::PrecompiledPath, "/opt/lib"),
        (Variable::TargetTriple, "x86_64-unknown-linux-gnu"),
        (Variable::OutputDir, "/out"),
    ]);
    let build = Orchestrator::new(config, Strategy::Direct);
    let untranslated = failed(Stage::Generation, FailureKind::TranslationFailure);
    let world = Surroundings { existing: vec!["/opt/lib"], translates: false, ..friendly() };
    let (state, asked) = run(&build, &world);
    assert_eq!(state, untranslated);
    assert!(!asked.iter().any(|a| matches!(a, Action::Store { .. })));
    let world = Surroundings { existing: vec!["/opt/lib"], writes: false, ..friendly() };
    let (state, _) = run(&build, &world);
    assert_eq!(state, untranslated);
}

#[test]
fn missing_settings_are_fatal_where_they_are_needed() {
    let unset = |stage, variable| failed(stage, FailureKind::ConfigurationReadFailure(variable));
    let existing = vec!["/opt/lib", "/src/bearssl"];

    let build = Orchestrator::new(EnvironmentConfiguration::new(), Strategy::Direct);
    assert_eq!(build.begin(), unset(Stage::Resolution, Variable::OutputDir));

    let config = configuration(&[(Variable::PrecompiledPath, "/opt/lib")]);
    let build = Orchestrator::new(config, Strategy::Direct);
    let (state, asked) = run(&build, &Surroundings { existing: existing.clone(), ..friendly() });
    assert_eq!(state, unset(Stage::Generation, Variable::TargetTriple));
    assert_eq!(asked.len(), 1);

    let config = configuration(&[
        (Variable::PrecompiledPath, "/opt/lib"),
        (Variable::TargetTriple, "x86_64-unknown-linux-gnu"),
    ]);
    let build = Orchestrator::new(config, Strategy::Direct);
    let (state, asked) = run(&build, &Surroundings { existing: existing.clone(), ..friendly() });
    assert_eq!(state, unset(Stage::Generation, Variable::OutputDir));
    assert!(matches!(asked.last(), Some(Action::Generate(_))));

    let config = configuration(&[
        (Variable::SourcePath, "/src/bearssl"),
        (Variable::TargetTriple, "x86_64-unknown-linux-gnu"),
    ]);
    let build = Orchestrator::new(config, Strategy::Direct);
    let (state, asked) = run(&build, &Surroundings { existing, ..friendly() });
    assert_eq!(state, unset(Stage::Compilation, Variable::OutputDir));
    assert!(matches!(asked.last(), Some(Action::Enumerate { .. })));
}

#[test]
fn failed_search_fails_the_build() {
    let config = configuration(&[
        (Variable::TargetTriple, "x86_64-unknown-linux-gnu"),
        (Variable::OutputDir, "/out"),
    ]);
    let build = Orchestrator::new(config, Strategy::Direct);
    let (state, asked) = run(&build, &Surroundings { git: 128, ..friendly() });
    assert_eq!(
        state,
        failed(
            Stage::Resolution,
            FailureKind::ExternalProcessFailure(ExitStatus { code: Some(128) })
        )
    );
    assert_eq!(asked.len(), 2);
}

#[test]
fn unexpected_event_leaves_the_build_where_it_is() {
    let config = configuration(&[
        (Variable::SourcePath, "/src/bearssl"),
        (Variable::TargetTriple, "x86_64-unknown-linux-gnu"),
        (Variable::OutputDir, "/out"),
    ]);
    let build = Orchestrator::new(config, Strategy::Direct);
    let states = [
        (BuildState::Resolving(State::ProbeSource), Event::Succeeded),
        (BuildState::Enumerating(Tier::Source), Event::Exists(true)),
        (BuildState::Compiling(Tier::Source, texts(&["a.c"])), Event::Succeeded),
        (BuildState::Delegating(Tier::Source), Event::Rejected),
        (BuildState::Linking(Tier::Source), Event::Rejected),
        (BuildState::Generating(Tier::Source), Event::Exists(false)),
        (BuildState::Storing(Tier::Source), Event::Malformed),
        (BuildState::Done(Tier::Source), Event::Rejected),
    ];
    for (state, event) in states {
        assert_eq!(build.advance(state.clone(), event), state);
    }
}

#[test]
fn finished_search_is_handed_over() {
    let config = configuration(&[
        (Variable::SourcePath, "/src/bearssl"),
        (Variable::TargetTriple, "x86_64-unknown-linux-gnu"),
        (Variable::OutputDir, "/out"),
    ]);
    let direct = Orchestrator::new(config.clone(), Strategy::Direct);
    let found = BuildState::Resolving(State::Resolved(Tier::Source));
    assert_eq!(
        direct.action(&found),
        Action::Enumerate { pattern: "/src/bearssl/src/**/*.c".to_string() }
    );
    assert_eq!(direct.action(&found), direct.action(&BuildState::Enumerating(Tier::Source)));
    assert_eq!(
        direct.advance(found.clone(), Event::Malformed),
        failed(Stage::Compilation, FailureKind::PatternMatchFailure)
    );
    let delegated = Orchestrator::new(config, Strategy::Delegated);
    assert_eq!(
        delegated.advance(found, Event::Exited(ExitStatus { code: Some(0) })),
        BuildState::Linking(Tier::Source)
    );
}

#[test]
fn compile_job_for_a_source_directory() {
    let units = texts(&["/src/bearssl/src/a.c"]);
    let job = CompileJob::new("/src/bearssl", &units, "/out");
    assert_eq!(job.include_dirs, texts(&["/src/bearssl/inc", "/src/bearssl/src"]));
    assert_eq!(job.units, units);
    assert_eq!(job.optimisation, "s");
    assert_eq!(job.archive, "bearssl");
    assert_eq!(job.output_dir, "/out");
    assert_eq!(unit_pattern_for("/src/bearssl"), "/src/bearssl/src/**/*.c");
}

#[test]
fn link_directives_for_each_strategy() {
    assert_eq!(tool_output_dir("/src/bearssl"), "/src/bearssl/build");
    let plain = vec![
        Directive::LinkSearch("/out".to_string()),
        Directive::LinkStatic("bearssl".to_string()),
    ];
    assert_eq!(link_directives("/out", &None), plain);
    assert_eq!(link_directives("/out", &text("linux")), plain);
    let mut relaxed = plain.clone();
    relaxed.push(Directive::AllowUndefined);
    assert_eq!(link_directives("/out", &text("macos")), relaxed);
    assert!(needs_relaxed_linkage(&text("macos")));
    assert!(!needs_relaxed_linkage(&text("ios")));
    assert!(!needs_relaxed_linkage(&None));
}

#[test]
fn directives_render_as_build_system_lines() {
    assert_eq!(
        Directive::LinkSearch("/out".to_string()).render(),
        "cargo:rustc-link-search=native=/out"
    );
    assert_eq!(
        Directive::LinkStatic("bearssl".to_string()).render(),
        "cargo:rustc-link-lib=static=bearssl"
    );
    assert_eq!(
        Directive::AllowUndefined.render(),
        "cargo:rustc-link-arg=-Wl,-undefined,dynamic_lookup"
    );
}
