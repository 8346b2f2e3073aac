use bearssl_build::bindings::{
    admits, exempt_target_names, header_names, header_paths, include_dir, layout_tests_enabled,
    public_surface, EnumStyle, GeneratorConfig, MacroConstants, Policy, Symbol, SymbolKind,
};

fn symbol(kind: SymbolKind, name: &str) -> Symbol {
    Symbol { kind, name: name.to_string() }
}

#[test]
fn layout_tests_are_disabled_on_the_two_unaligned_targets() {
    assert!(!layout_tests_enabled("aarch64-apple-ios"));
    assert!(!layout_tests_enabled("aarch64-apple-ios-sim"));
}

#[test]
fn exactly_two_targets_are_exempt() {
    assert_eq!(exempt_target_names(), vec!["aarch64-apple-ios", "aarch64-apple-ios-sim"]);
}

#[test]
fn layout_tests_stay_enabled_elsewhere() {
    assert!(layout_tests_enabled("x86_64-unknown-linux-gnu"));
    assert!(layout_tests_enabled("aarch64-apple-darwin"));
    assert!(layout_tests_enabled("x86_64-apple-ios"));
    assert!(layout_tests_enabled("aarch64-apple-ios-macabi"));
    assert!(layout_tests_enabled("aarch64-apple-io"));
    assert!(layout_tests_enabled(""));
}

#[test]
fn policy_adjusts_only_the_layout_tests() {
    let standard = Policy::standard();
    assert!(standard.layout_tests);
    let mut policy = standard;
    policy.adjust("x86_64-unknown-linux-gnu");
    assert_eq!(policy, standard);
    policy.adjust("aarch64-apple-ios");
    assert_eq!(policy, Policy { layout_tests: false, ..standard });
    assert_eq!(Policy::for_target("aarch64-apple-ios-sim"), policy);
    assert_eq!(Policy::for_target("wasm32-unknown-unknown"), standard);
}

#[test]
fn standard_policy() {
    let policy = Policy::standard();
    assert_eq!(policy.enum_style, EnumStyle::NewType { is_bitfield: false, is_global: false });
    assert!(policy.prepend_enum_name);
    assert_eq!(policy.macro_constants, MacroConstants::Signed);
    assert!(!policy.fit_macro_constants);
    assert!(policy.array_pointers_in_arguments);
    assert!(policy.layout_tests);
    assert!(policy.merge_extern_blocks);
    assert!(policy.derive_copy && policy.derive_debug && policy.derive_default);
    assert!(policy.derive_eq && policy.detect_function_attributes && policy.format);
    assert!(policy.generate_comments && policy.size_t_is_usize);
    assert!(policy.time_phases && policy.use_core);
}

#[test]
fn public_names() {
    assert!(admits(SymbolKind::Function, "br_sha256_init"));
    assert!(admits(SymbolKind::Type, "br_sha256_context"));
    assert!(admits(SymbolKind::Variable, "br_sha256_vtable"));
    assert!(admits(SymbolKind::Variable, "BR_ERR_OK"));
    assert!(admits(SymbolKind::Function, "br_"));
}

#[test]
fn other_names() {
    assert!(!admits(SymbolKind::Function, "BR_ERR_OK"));
    assert!(!admits(SymbolKind::Type, "BR_sha"));
    assert!(!admits(SymbolKind::Function, "malloc"));
    assert!(!admits(SymbolKind::Type, "size_t"));
    assert!(!admits(SymbolKind::Variable, "Br_mixed"));
    assert!(!admits(SymbolKind::Variable, "xbr_"));
    assert!(!admits(SymbolKind::Variable, "br"));
    assert!(!admits(SymbolKind::Function, ""));
}

#[test]
fn public_surface_keeps_exactly_the_public_names() {
    let declared = vec![
        symbol(SymbolKind::Function, "memcpy"),
        symbol(SymbolKind::Function, "br_sha256_init"),
        symbol(SymbolKind::Type, "size_t"),
        symbol(SymbolKind::Variable, "BR_ERR_OK"),
        symbol(SymbolKind::Function, "BR_not_a_function"),
        symbol(SymbolKind::Type, "br_sha256_context"),
        symbol(SymbolKind::Function, "br_sha256_init"),
    ];
    assert_eq!(
        public_surface(&declared),
        vec![
            symbol(SymbolKind::Function, "br_sha256_init"),
            symbol(SymbolKind::Variable, "BR_ERR_OK"),
            symbol(SymbolKind::Type, "br_sha256_context"),
            symbol(SymbolKind::Function, "br_sha256_init"),
        ]
    );
    assert_eq!(public_surface(&Vec::new()), Vec::<Symbol>::new());
}

#[test]
fn header_set_in_order() {
    assert_eq!(
        header_names(),
        vec![
            "bearssl.h",
            "bearssl_aead.h",
            "bearssl_block.h",
            "bearssl_ec.h",
            "bearssl_hash.h",
            "bearssl_hmac.h",
            "bearssl_kdf.h",
            "bearssl_pem.h",
            "bearssl_prf.h",
            "bearssl_rand.h",
            "bearssl_rsa.h",
            "bearssl_ssl.h",
            "bearssl_x509.h",
        ]
    );
}

#[test]
fn headers_resolve_below_the_header_directory() {
    let paths = header_paths("/opt/lib/inc");
    assert_eq!(paths.len(), 13);
    assert_eq!(paths[0], "/opt/lib/inc/bearssl.h");
    assert_eq!(paths[5], "/opt/lib/inc/bearssl_hmac.h");
    assert_eq!(paths[12], "/opt/lib/inc/bearssl_x509.h");
    for (path, name) in paths.iter().zip(header_names()) {
        assert_eq!(path, &format!("/opt/lib/inc/{}", name));
    }
}

#[test]
fn header_directory_defaults_below_the_root() {
    assert_eq!(include_dir(&None, "/opt/lib"), "/opt/lib/inc");
    assert_eq!(include_dir(&Some("/usr/include".to_string()), "/opt/lib"), "/usr/include");
}

#[test]
fn generator_config_for_a_target() {
    let config = GeneratorConfig::new("/opt/lib/inc", "x86_64-unknown-linux-gnu");
    assert_eq!(config.headers, header_paths("/opt/lib/inc"));
    assert_eq!(config.include_dir, "/opt/lib/inc");
    assert_eq!(config.function_pattern, "br_.*");
    assert_eq!(config.type_pattern, "br_.*");
    assert_eq!(config.variable_pattern, "(br|BR)_.*");
    assert_eq!(config.ctypes_prefix, "::core::ffi");
    assert_eq!(config.policy, Policy::standard());
    assert_eq!(config.clang_args(), vec!["-I".to_string(), "/opt/lib/inc".to_string()]);
    let quirky = GeneratorConfig::new("/opt/lib/inc", "aarch64-apple-ios");
    assert!(!quirky.policy.layout_tests);
    assert_eq!(quirky.headers, config.headers);
}
