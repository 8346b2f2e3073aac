//! How the native library's headers are turned into foreign declarations:
//! which headers are read, which names are kept, and how each kind of
//! declaration is rendered.

use vstd::prelude::*;
use crate::path::{join, joined};
use crate::text::{has_prefix, same_text, starts_with};

verus! {

/// The directory, below the native library's own, that holds its headers.
pub const INCLUDE_SUBDIRECTORY: &'static str = "inc";

/// The pattern that the names of the kept functions match.
pub const FUNCTION_PATTERN: &'static str = "br_.*";

/// The pattern that the names of the kept types match.
pub const TYPE_PATTERN: &'static str = "br_.*";

/// The pattern that the names of the kept variables and constants match.
pub const VARIABLE_PATTERN: &'static str = "(br|BR)_.*";

/// The prefix under which the C types are found.
pub const CTYPES_PREFIX: &'static str = "::core::ffi";

/// The name of the file that holds the generated declarations.
pub const MODULE_FILE: &'static str = "bindings.rs";

/// The prefix of the native library's public functions, types and variables.
pub const LOWER_PREFIX: &'static str = "br_";

/// The prefix of the native library's public constants.
pub const UPPER_PREFIX: &'static str = "BR_";

/// The first of the two targets whose types are deliberately unaligned.
pub const UNALIGNED_TARGET: &'static str = "aarch64-apple-ios";

/// The second of the two targets whose types are deliberately unaligned.
pub const UNALIGNED_SIMULATOR_TARGET: &'static str = "aarch64-apple-ios-sim";

/// The targets for which no layout self-tests are generated: those whose
/// types are deliberately unaligned, where such a test would read memory
/// in a way that is undefined.
pub open spec fn exempt_targets() -> Seq<Seq<char>> {
    seq![UNALIGNED_TARGET@, UNALIGNED_SIMULATOR_TARGET@]
}

/// Whether layout self-tests are generated for a target: for every target
/// that is not exempt.
pub open spec fn layout_tests_for(target: Seq<char>) -> bool {
    !exempt_targets().contains(target)
}

/// The targets for which no layout self-tests are generated.
pub fn exempt_target_names() -> (r: Vec<&'static str>)
    ensures
        r.deep_view() == exempt_targets(),
{
    let r = vec![UNALIGNED_TARGET, UNALIGNED_SIMULATOR_TARGET];
    proof {
        assert(r.deep_view() =~= exempt_targets());
    }
    r
}

/// Whether layout self-tests are generated for a target.
pub fn layout_tests_enabled(target: &str) -> (r: bool)
    ensures
        r == layout_tests_for(target@),
        r == !(target@ == "aarch64-apple-ios"@ || target@ == "aarch64-apple-ios-sim"@),
{
    let exempt = exempt_target_names();
    proof {
        assert(exempt.deep_view().len() == exempt.len());
    }
    let mut i: usize = 0;
    while i < exempt.len()
        invariant
            i <= exempt.len() == 2,
            exempt.deep_view() == exempt_targets(),
            exempt_targets()[0] == "aarch64-apple-ios"@,
            exempt_targets()[1] == "aarch64-apple-ios-sim"@,
            forall|j: int| 0 <= j < i ==> exempt_targets()[j] != target@,
        decreases exempt.len() - i,
    {
        proof {
            assert(exempt.deep_view()[i as int] == exempt[i as int]@);
        }
        if same_text(target, exempt[i]) {
            proof {
                assert(exempt_targets()[i as int] == target@);
            }
            return false;
        }
        i += 1;
    }
    true
}

/// The kinds of declaration that a header makes.
#[derive(Clone, Copy, Debug, PartialEq, Eq, Structural)]
pub enum SymbolKind {
    Function,
    Type,
    Variable,
}

/// Whether a name belongs to the native library's public surface: it
/// starts with the lower-case prefix, or it names a variable or constant
/// and starts with the upper-case prefix.
pub open spec fn is_public(kind: SymbolKind, name: Seq<char>) -> bool {
    has_prefix(name, LOWER_PREFIX@) || (kind == SymbolKind::Variable && has_prefix(
        name,
        UPPER_PREFIX@,
    ))
}

/// Whether a name belongs to the native library's public surface.
pub fn admits(kind: SymbolKind, name: &str) -> (r: bool)
    ensures
        r == is_public(kind, name@),
{
    if starts_with(name, LOWER_PREFIX) {
        true
    } else {
        match kind {
            SymbolKind::Variable => starts_with(name, UPPER_PREFIX),
            _ => false,
        }
    }
}

/// What a `Symbol` holds.
pub struct Declaration {
    pub kind: SymbolKind,
    pub name: Seq<char>,
}

/// A name that a header declares, with the kind of thing it names.
#[derive(Clone, Debug, PartialEq, Eq)]
pub struct Symbol {
    pub kind: SymbolKind,
    pub name: String,
}

impl View for Symbol {
    type V = Declaration;

    open spec fn view(&self) -> Declaration {
        Declaration { kind: self.kind, name: self.name@ }
    }
}

impl DeepView for Symbol {
    type V = Declaration;

    open spec fn deep_view(&self) -> Declaration {
        self@
    }
}

/// Of the declarations of the headers, those that belong to the native
/// library's public surface, in the order in which they were declared.
pub open spec fn surface(declared: Seq<Declaration>) -> Seq<Declaration> {
    declared.filter(|d: Declaration| is_public(d.kind, d.name))
}

/// Of the declarations of the headers, those that belong to the native
/// library's public surface, in the order in which they were declared.
pub fn public_surface(declared: &Vec<Symbol>) -> (r: Vec<Symbol>)
    ensures
        r.deep_view() == surface(declared.deep_view()),
{
    let mut out: Vec<Symbol> = Vec::new();
    let mut i: usize = 0;
    proof {
        reveal(Seq::filter);
        assert(declared.deep_view().subrange(0, 0) =~= Seq::<Declaration>::empty());
        assert(out.deep_view() =~= surface(declared.deep_view().subrange(0, 0)));
    }
    while i < declared.len()
        invariant
            i <= declared.len(),
            out.deep_view() == surface(declared.deep_view().subrange(0, i as int)),
        decreases declared.len() - i,
    {
        let ghost before = out.deep_view();
        let ghost head = declared.deep_view().subrange(0, i as int);
        let ghost longer = declared.deep_view().subrange(0, i as int + 1);
        proof {
            reveal(Seq::filter);
            assert(longer.drop_last() =~= head);
            assert(longer.last() == declared[i as int]@);
        }
        if admits(declared[i].kind, declared[i].name.as_str()) {
            out.push(Symbol { kind: declared[i].kind, name: declared[i].name.clone() });
            proof {
                assert(out.deep_view() =~= before.push(declared[i as int]@));
            }
        }
        i += 1;
    }
    proof {
        assert(declared.deep_view().subrange(0, i as int) =~= declared.deep_view());
    }
    out
}

/// The public surface is complete and holds nothing else: a declaration is
/// in it exactly when the headers make it and its name is a public one.
pub proof fn lemma_surface(declared: Seq<Declaration>, d: Declaration)
    ensures
        surface(declared).contains(d) <==> declared.contains(d) && is_public(d.kind, d.name),
    decreases declared.len(),
{
    reveal(Seq::filter);
    if declared.len() > 0 {
        let shorter = declared.drop_last();
        let last = declared.last();
        lemma_surface(shorter, d);
        if is_public(last.kind, last.name) {
            assert(surface(declared) == surface(shorter).push(last));
            if surface(declared).contains(d) {
                let i = choose|i: int| 0 <= i < surface(declared).len() && surface(declared)[i] == d;
                if i < surface(shorter).len() {
                    assert(surface(shorter)[i] == d);
                }
            }
            if surface(shorter).contains(d) {
                let i = choose|i: int| 0 <= i < surface(shorter).len() && surface(shorter)[i] == d;
                assert(surface(declared)[i] == d);
            }
            if d == last {
                assert(surface(declared)[surface(shorter).len() as int] == d);
            }
        } else {
            assert(surface(declared) == surface(shorter));
        }
        if declared.contains(d) {
            let i = choose|i: int| 0 <= i < declared.len() && declared[i] == d;
            if i < shorter.len() {
                assert(shorter[i] == d);
            }
        }
        if shorter.contains(d) {
            let i = choose|i: int| 0 <= i < shorter.len() && shorter[i] == d;
            assert(declared[i] == d);
        }
        assert(declared[declared.len() - 1] == last);
    }
}

/// How an enumeration is rendered.
#[derive(Clone, Copy, Debug, PartialEq, Eq, Structural)]
pub enum EnumStyle {
    /// A type of its own for each enumeration, whose values are constants
    /// of that type: associated with it, or global where `is_global` is set.
    NewType { is_bitfield: bool, is_global: bool },
    /// Plain integer constants.
    Consts,
}

/// The integer type that a preprocessor constant gets.
#[derive(Clone, Copy, Debug, PartialEq, Eq, Structural)]
pub enum MacroConstants {
    Signed,
    Unsigned,
}

/// The rules by which declarations are rendered.
#[derive(Clone, Copy, Debug, PartialEq, Eq, Structural)]
pub struct Policy {
    /// How enumerations are rendered.
    pub enum_style: EnumStyle,
    /// Whether a value's name starts with the name of its enumeration.
    pub prepend_enum_name: bool,
    /// The integer type of preprocessor constants.
    pub macro_constants: MacroConstants,
    /// Whether a preprocessor constant gets the smallest type that holds it.
    pub fit_macro_constants: bool,
    /// Whether a parameter that points to an array keeps the array's size.
    pub array_pointers_in_arguments: bool,
    /// Whether tests of the structs' layout are generated.
    pub layout_tests: bool,
    /// Whether the declarations of all headers are merged into one block.
    pub merge_extern_blocks: bool,
    pub derive_copy: bool,
    pub derive_debug: bool,
    pub derive_default: bool,
    pub derive_eq: bool,
    pub detect_function_attributes: bool,
    pub format: bool,
    pub generate_comments: bool,
    pub size_t_is_usize: bool,
    pub time_phases: bool,
    pub use_core: bool,
}

/// The rules by which declarations are rendered, with layout self-tests
/// as asked for.
pub open spec fn policy_with(layout_tests: bool) -> Policy {
    Policy {
        enum_style: EnumStyle::NewType { is_bitfield: false, is_global: false },
        prepend_enum_name: true,
        macro_constants: MacroConstants::Signed,
        fit_macro_constants: false,
        array_pointers_in_arguments: true,
        layout_tests,
        merge_extern_blocks: true,
        derive_copy: true,
        derive_debug: true,
        derive_default: true,
        derive_eq: true,
        detect_function_attributes: true,
        format: true,
        generate_comments: true,
        size_t_is_usize: true,
        time_phases: true,
        use_core: true,
    }
}

/// The rules for a target: layout self-tests are generated unless the
/// target is one of the two whose types are deliberately unaligned.
pub open spec fn policy_for(target: Seq<char>) -> Policy {
    policy_with(layout_tests_for(target))
}

impl Policy {
    /// The rules as they stand before the target is looked at: layout
    /// self-tests are generated.
    pub fn standard() -> (r: Policy)
        ensures
            r == policy_with(true),
    {
        Policy {
            enum_style: EnumStyle::NewType { is_bitfield: false, is_global: false },
            prepend_enum_name: true,
            macro_constants: MacroConstants::Signed,
            fit_macro_constants: false,
            array_pointers_in_arguments: true,
            layout_tests: true,
            merge_extern_blocks: true,
            derive_copy: true,
            derive_debug: true,
            derive_default: true,
            derive_eq: true,
            detect_function_attributes: true,
            format: true,
            generate_comments: true,
            size_t_is_usize: true,
            time_phases: true,
            use_core: true,
        }
    }

    /// Adjusts the rules to a target: switches the layout self-tests off
    /// for the two targets whose types are deliberately unaligned, and
    /// leaves every rule as it is for any other target.
    pub fn adjust(&mut self, target: &str)
        ensures
            layout_tests_for(target@) ==> *final(self) == *old(self),
            !layout_tests_for(target@) ==> *final(self) == (Policy {
                layout_tests: false,
                ..*old(self)
            }),
    {
        if !layout_tests_enabled(target) {
            self.layout_tests = false;
        }
    }

    /// The rules for a target.
    pub fn for_target(target: &str) -> (r: Policy)
        ensures
            r == policy_for(target@),
            r.layout_tests == layout_tests_for(target@),
    {
        let mut policy = Policy::standard();
        policy.adjust(target);
        policy
    }
}

/// The names of the headers that are read, in the order in which they are
/// read: the umbrella header, then one header for each part of the
/// native library.
pub open spec fn header_set() -> Seq<Seq<char>> {
    seq![
        "bearssl.h"@,
        "bearssl_aead.h"@,
        "bearssl_block.h"@,
        "bearssl_ec.h"@,
        "bearssl_hash.h"@,
        "bearssl_hmac.h"@,
        "bearssl_kdf.h"@,
        "bearssl_pem.h"@,
        "bearssl_prf.h"@,
        "bearssl_rand.h"@,
        "bearssl_rsa.h"@,
        "bearssl_ssl.h"@,
        "bearssl_x509.h"@,
    ]
}

/// The names of the headers that are read, in order.
pub fn header_names() -> (r: Vec<&'static str>)
    ensures
        r.deep_view() == header_set(),
{
    let r = vec![
        "bearssl.h",
        "bearssl_aead.h",
        "bearssl_block.h",
        "bearssl_ec.h",
        "bearssl_hash.h",
        "bearssl_hmac.h",
        "bearssl_kdf.h",
        "bearssl_pem.h",
        "bearssl_prf.h",
        "bearssl_rand.h",
        "bearssl_rsa.h",
        "bearssl_ssl.h",
        "bearssl_x509.h",
    ];
    proof {
        assert(r.deep_view() =~= header_set());
    }
    r
}

/// Each name of `names` below `directory`, in the same order.
pub open spec fn paths_below(directory: Seq<char>, names: Seq<Seq<char>>) -> Seq<Seq<char>> {
    Seq::new(names.len(), |i: int| joined(directory, names[i]))
}

/// The headers that are read, each below the header directory.
pub fn header_paths(directory: &str) -> (r: Vec<String>)
    ensures
        r.deep_view() == paths_below(directory@, header_set()),
{
    let names = header_names();
    let mut out: Vec<String> = Vec::new();
    let mut i: usize = 0;
    while i < names.len()
        invariant
            i <= names.len(),
            names.deep_view() == header_set(),
            out.len() == i,
            forall|j: int| 0 <= j < i ==> out[j]@ == joined(directory@, header_set()[j]),
        decreases names.len() - i,
    {
        proof {
            assert(names.deep_view()[i as int] == names[i as int]@);
        }
        out.push(join(directory, names[i]));
        i += 1;
    }
    proof {
        assert(names.deep_view().len() == names.len());
        assert(out.deep_view() =~= paths_below(directory@, header_set()));
    }
    out
}

/// The directory in which the headers are looked up: the one that was
/// asked for, else the include directory below the native library's own.
pub open spec fn include_directory(asked: Option<Seq<char>>, root: Seq<char>) -> Seq<char> {
    match asked {
        Some(directory) => directory,
        None => joined(root, INCLUDE_SUBDIRECTORY@),
    }
}

/// The directory in which the headers are looked up.
pub fn include_dir(asked: &Option<String>, root: &str) -> (r: String)
    ensures
        r@ == include_directory(asked.deep_view(), root@),
{
    match asked {
        Some(directory) => directory.clone(),
        None => join(root, INCLUDE_SUBDIRECTORY),
    }
}

/// What a `GeneratorConfig` holds.
pub struct GeneratorSettings {
    pub headers: Seq<Seq<char>>,
    pub include_dir: Seq<char>,
    pub function_pattern: Seq<char>,
    pub type_pattern: Seq<char>,
    pub variable_pattern: Seq<char>,
    pub ctypes_prefix: Seq<char>,
    pub policy: Policy,
}

/// All that the translator of headers is told.
#[derive(Clone, Debug, PartialEq, Eq)]
pub struct GeneratorConfig {
    /// The headers to read, in order.
    pub headers: Vec<String>,
    /// The directory in which headers are looked up.
    pub include_dir: String,
    /// The pattern of the functions to keep.
    pub function_pattern: String,
    /// The pattern of the types to keep.
    pub type_pattern: String,
    /// The pattern of the variables and constants to keep.
    pub variable_pattern: String,
    /// The prefix under which the C types are found.
    pub ctypes_prefix: String,
    /// How declarations are rendered.
    pub policy: Policy,
}

impl View for GeneratorConfig {
    type V = GeneratorSettings;

    open spec fn view(&self) -> GeneratorSettings {
        GeneratorSettings {
            headers: self.headers.deep_view(),
            include_dir: self.include_dir@,
            function_pattern: self.function_pattern@,
            type_pattern: self.type_pattern@,
            variable_pattern: self.variable_pattern@,
            ctypes_prefix: self.ctypes_prefix@,
            policy: self.policy,
        }
    }
}

/// What the translator is told for a header directory and a target.
pub open spec fn generator_settings(directory: Seq<char>, target: Seq<char>) -> GeneratorSettings {
    GeneratorSettings {
        headers: paths_below(directory, header_set()),
        include_dir: directory,
        function_pattern: FUNCTION_PATTERN@,
        type_pattern: TYPE_PATTERN@,
        variable_pattern: VARIABLE_PATTERN@,
        ctypes_prefix: CTYPES_PREFIX@,
        policy: policy_for(target),
    }
}

impl GeneratorConfig {
    /// What the translator is told for a header directory and a target.
    pub fn new(directory: &str, target: &str) -> (r: GeneratorConfig)
        ensures
            r@ == generator_settings(directory@, target@),
            r@.policy.layout_tests == layout_tests_for(target@),
    {
        GeneratorConfig {
            headers: header_paths(directory),
            include_dir: directory.to_owned(),
            function_pattern: FUNCTION_PATTERN.to_owned(),
            type_pattern: TYPE_PATTERN.to_owned(),
            variable_pattern: VARIABLE_PATTERN.to_owned(),
            ctypes_prefix: CTYPES_PREFIX.to_owned(),
            policy: Policy::for_target(target),
        }
    }

    /// The arguments that tell the C compiler where the headers are.
    pub fn clang_args(&self) -> (r: Vec<String>)
        ensures
            r.deep_view() == seq!["-I"@, self@.include_dir],
    {
        let mut out: Vec<String> = Vec::new();
        out.push("-I".to_owned());
        out.push(self.include_dir.clone());
        proof {
            assert(out.deep_view() =~= seq!["-I"@, self@.include_dir]);
        }
        out
    }
}

} // verus!
