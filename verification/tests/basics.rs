use bearssl_build::config::{EnvironmentConfiguration, Variable};
use bearssl_build::failure::{
    decimal_text, ExitStatus, ExitStatusError, Failure, FailureKind, Stage,
};
use bearssl_build::path::join;
use bearssl_build::text::{copy_texts, same_text, starts_with};

#[test]
fn join_puts_one_separator_between() {
    assert_eq!(join("/opt/lib", "inc"), "/opt/lib/inc");
    assert_eq!(join("/opt/lib/", "inc"), "/opt/lib/inc");
    assert_eq!(join("out", "deps/bearssl"), "out/deps/bearssl");
}

#[test]
fn join_with_empty_parts() {
    assert_eq!(join("", "inc"), "inc");
    assert_eq!(join("/opt/lib", ""), "/opt/lib/");
    assert_eq!(join("", ""), "");
    assert_eq!(join("/", "inc"), "/inc");
}

#[test]
fn join_absolute_part_replaces_base() {
    assert_eq!(join("/opt/lib", "/usr/include"), "/usr/include");
}

#[test]
fn join_agrees_with_std_paths() {
    let cases = [
        ("/opt/lib", "inc"),
        ("/opt/lib/", "inc"),
        ("", "inc"),
        ("/", "inc"),
        ("/opt/lib", "/usr/include"),
        ("rel", "src/**/*.c"),
        ("/opt/lib", ""),
        ("/caf\u{e9}", "inc"),
    ];
    for (base, part) in cases {
        let expected = std::path::Path::new(base).join(part);
        assert_eq!(join(base, part), expected.to_str().unwrap());
    }
}

#[test]
fn variable_names() {
    assert_eq!(Variable::PrecompiledPath.name(), "BEARSSL_PRECOMPILED_PATH");
    assert_eq!(Variable::SourcePath.name(), "BEARSSL_SOURCE_PATH");
    assert_eq!(Variable::IncludePath.name(), "BEARSSL_INCLUDE_PATH");
    assert_eq!(Variable::RevisionHash.name(), "BEARSSL_GIT_HASH");
    assert_eq!(Variable::TargetTriple.name(), "TARGET");
    assert_eq!(Variable::HostOs.name(), "CARGO_CFG_TARGET_OS");
    assert_eq!(Variable::OutputDir.name(), "OUT_DIR");
}

#[test]
fn variables_in_order() {
    assert_eq!(
        Variable::all(),
        vec![
            Variable::PrecompiledPath,
            Variable::SourcePath,
            Variable::OutputDir,
            Variable::RevisionHash,
            Variable::HostOs,
            Variable::IncludePath,
            Variable::TargetTriple,
        ]
    );
}

#[test]
fn configuration_starts_empty() {
    let config = EnvironmentConfiguration::new();
    for variable in Variable::all() {
        assert_eq!(config.get(variable), None);
    }
}

#[test]
fn configuration_set_then_get() {
    for variable in Variable::all() {
        let mut config = EnvironmentConfiguration::new();
        config.set(variable, Some("value".to_string()));
        for other in Variable::all() {
            if other == variable {
                assert_eq!(config.get(other), Some(&"value".to_string()));
            } else {
                assert_eq!(config.get(other), None);
            }
        }
        config.set(variable, None);
        assert_eq!(config, EnvironmentConfiguration::new());
    }
}

#[test]
fn exit_status_success_is_code_zero() {
    assert!(ExitStatus { code: Some(0) }.success());
    assert!(!ExitStatus { code: Some(1) }.success());
    assert!(!ExitStatus { code: Some(-1) }.success());
    assert!(!ExitStatus { code: None }.success());
}

#[test]
fn exit_ok_carries_the_status() {
    assert_eq!(ExitStatus { code: Some(0) }.exit_ok(), Ok(()));
    let failed = ExitStatus { code: Some(2) };
    assert_eq!(failed.exit_ok(), Err(ExitStatusError(failed)));
    let killed = ExitStatus { code: None };
    assert_eq!(killed.exit_ok(), Err(ExitStatusError(killed)));
}

#[test]
fn exit_status_error_message() {
    let error = ExitStatusError(ExitStatus { code: Some(101) });
    assert_eq!(error.message(), "process exited unsuccessfully: exit status: 101");
    let killed = ExitStatusError(ExitStatus { code: None });
    assert_eq!(killed.message(), "process exited unsuccessfully: no exit status");
}

#[test]
fn decimal_text_matches_std() {
    for n in [0, 1, 9, 10, 11, 99, 100, 255, 1000, 65536, i32::MAX, -1, -9, -10, -255, i32::MIN] {
        assert_eq!(decimal_text(n), n.to_string());
    }
}

#[test]
fn stage_names() {
    assert_eq!(Stage::Resolution.name(), "resolution");
    assert_eq!(Stage::Compilation.name(), "compilation");
    assert_eq!(Stage::Generation.name(), "generation");
}

#[test]
fn only_missing_location_is_not_fatal() {
    assert!(!FailureKind::MissingLocation(Variable::SourcePath).is_fatal());
    assert!(FailureKind::ExternalProcessFailure(ExitStatus { code: Some(1) }).is_fatal());
    assert!(FailureKind::ConfigurationReadFailure(Variable::TargetTriple).is_fatal());
    assert!(FailureKind::PatternMatchFailure.is_fatal());
    assert!(FailureKind::TranslationFailure.is_fatal());
}

#[test]
fn failure_messages_name_the_stage() {
    let message = |stage, kind| Failure { stage, kind }.message();
    assert_eq!(
        message(Stage::Resolution, FailureKind::MissingLocation(Variable::PrecompiledPath)),
        "resolution: no such path: BEARSSL_PRECOMPILED_PATH"
    );
    assert_eq!(
        message(
            Stage::Compilation,
            FailureKind::ExternalProcessFailure(ExitStatus { code: Some(2) })
        ),
        "compilation: process exited unsuccessfully: exit status: 2"
    );
    assert_eq!(
        message(Stage::Generation, FailureKind::ConfigurationReadFailure(Variable::TargetTriple)),
        "generation: absent or unusable: TARGET"
    );
    assert_eq!(
        message(Stage::Compilation, FailureKind::PatternMatchFailure),
        "compilation: source file pattern malformed or without match"
    );
    assert_eq!(
        message(Stage::Generation, FailureKind::TranslationFailure),
        "generation: unable to generate bindings"
    );
}

#[test]
fn text_helpers() {
    assert!(same_text("macos", "macos"));
    assert!(!same_text("macos", "linux"));
    assert!(!same_text("macos", "macos "));
    assert!(starts_with("br_x", "br_"));
    assert!(starts_with("br_", "br_"));
    assert!(starts_with("anything", ""));
    assert!(!starts_with("br", "br_"));
    assert!(!starts_with("bR_x", "br_"));
    let texts = vec!["a".to_string(), "".to_string(), "b/c".to_string()];
    assert_eq!(copy_texts(&texts), texts);
    assert_eq!(copy_texts(&Vec::new()), Vec::<String>::new());
}

#[test]
fn host_provided_variables() {
    let provided: Vec<Variable> =
        Variable::all().into_iter().filter(|v| v.is_host_provided()).collect();
    assert_eq!(provided, vec![Variable::OutputDir, Variable::HostOs, Variable::TargetTriple]);
}
