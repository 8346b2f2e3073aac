//! How the native library is compiled from its sources, and what the
//! linker is told afterwards.

use vstd::prelude::*;
use crate::bindings::INCLUDE_SUBDIRECTORY;
use crate::config::RELAXED_LINKAGE_OS;
use crate::path::{join, joined};
use crate::text::{copy_texts, same_text};

verus! {

/// The name of the static library that is produced and linked.
pub const ARCHIVE_NAME: &'static str = "bearssl";

/// The pattern, below the source directory, of the files that are compiled.
pub const UNIT_PATTERN: &'static str = "src/**/*.c";

/// The directory, below the source directory, of the native library's
/// internal headers.
pub const SOURCE_SUBDIRECTORY: &'static str = "src";

/// The optimisation level: for size.
pub const OPTIMISATION: &'static str = "s";

/// The native library's own build tool.
pub const BUILD_TOOL: &'static str = "make";

/// The directory, below the source directory, into which the native
/// library's own build tool puts what it builds.
pub const TOOL_OUTPUT_SUBDIRECTORY: &'static str = "build";

/// The way in which the native library is compiled.
#[derive(Clone, Copy, Debug, PartialEq, Eq, Structural)]
pub enum Strategy {
    /// Its source files are listed and handed to a C compiler.
    Direct,
    /// Its own build tool is run in its source directory.
    Delegated,
}

/// The pattern that the files to compile match.
pub open spec fn unit_pattern(source: Seq<char>) -> Seq<char> {
    joined(source, UNIT_PATTERN@)
}

/// The pattern that the files to compile match.
pub fn unit_pattern_for(source: &str) -> (r: String)
    ensures
        r@ == unit_pattern(source@),
{
    join(source, UNIT_PATTERN)
}

/// What a `CompileJob` holds.
pub struct CompileOrder {
    pub include_dirs: Seq<Seq<char>>,
    pub units: Seq<Seq<char>>,
    pub optimisation: Seq<char>,
    pub archive: Seq<char>,
    pub output_dir: Seq<char>,
}

/// One run of the C compiler over the native library's source files.
#[derive(Clone, Debug, PartialEq, Eq)]
pub struct CompileJob {
    /// The directories in which headers are looked up, in order.
    pub include_dirs: Vec<String>,
    /// The files to compile.
    pub units: Vec<String>,
    /// The optimisation level.
    pub optimisation: String,
    /// The name of the static library to produce.
    pub archive: String,
    /// The directory in which the static library is put.
    pub output_dir: String,
}

impl View for CompileJob {
    type V = CompileOrder;

    open spec fn view(&self) -> CompileOrder {
        CompileOrder {
            include_dirs: self.include_dirs.deep_view(),
            units: self.units.deep_view(),
            optimisation: self.optimisation@,
            archive: self.archive@,
            output_dir: self.output_dir@,
        }
    }
}

/// The compiler run for a source directory, the files found in it and
/// the directory that takes the result.
pub open spec fn compile_order(
    source: Seq<char>,
    units: Seq<Seq<char>>,
    output: Seq<char>,
) -> CompileOrder {
    CompileOrder {
        include_dirs: seq![
            joined(source, INCLUDE_SUBDIRECTORY@),
            joined(source, SOURCE_SUBDIRECTORY@),
        ],
        units,
        optimisation: OPTIMISATION@,
        archive: ARCHIVE_NAME@,
        output_dir: output,
    }
}

impl CompileJob {
    /// The compiler run for a source directory, the files found in it and
    /// the directory that takes the result.
    pub fn new(source: &str, units: &Vec<String>, output: &str) -> (r: CompileJob)
        ensures
            r@ == compile_order(source@, units.deep_view(), output@),
    {
        let mut include_dirs: Vec<String> = Vec::new();
        include_dirs.push(join(source, INCLUDE_SUBDIRECTORY));
        include_dirs.push(join(source, SOURCE_SUBDIRECTORY));
        proof {
            assert(include_dirs.deep_view() =~= seq![
                joined(source@, INCLUDE_SUBDIRECTORY@),
                joined(source@, SOURCE_SUBDIRECTORY@),
            ]);
        }
        CompileJob {
            include_dirs,
            units: copy_texts(units),
            optimisation: OPTIMISATION.to_owned(),
            archive: ARCHIVE_NAME.to_owned(),
            output_dir: output.to_owned(),
        }
    }
}

/// What a `Directive` holds.
pub enum Instruction {
    LinkSearch(Seq<char>),
    LinkStatic(Seq<char>),
    AllowUndefined,
}

impl Instruction {
    /// The line that hands the instruction to the build system.
    pub open spec fn line(self) -> Seq<char> {
        match self {
            Instruction::LinkSearch(directory) => "cargo:rustc-link-search=native="@ + directory,
            Instruction::LinkStatic(name) => "cargo:rustc-link-lib=static="@ + name,
            Instruction::AllowUndefined => "cargo:rustc-link-arg=-Wl,-undefined,dynamic_lookup"@,
        }
    }
}

/// An instruction to the build system on how to link.
#[derive(Clone, Debug, PartialEq, Eq)]
pub enum Directive {
    /// Look for native libraries in this directory.
    LinkSearch(String),
    /// Link this library statically.
    LinkStatic(String),
    /// Let symbols that are not found at link time be looked up when the
    /// program is loaded.
    AllowUndefined,
}

impl View for Directive {
    type V = Instruction;

    open spec fn view(&self) -> Instruction {
        match self {
            Directive::LinkSearch(directory) => Instruction::LinkSearch(directory@),
            Directive::LinkStatic(name) => Instruction::LinkStatic(name@),
            Directive::AllowUndefined => Instruction::AllowUndefined,
        }
    }
}

impl DeepView for Directive {
    type V = Instruction;

    open spec fn deep_view(&self) -> Instruction {
        self@
    }
}

impl Directive {
    /// The line that hands the instruction to the build system.
    pub fn render(&self) -> (r: String)
        ensures
            r@ == self@.line(),
    {
        match self {
            Directive::LinkSearch(directory) => {
                let mut out = "cargo:rustc-link-search=native=".to_owned();
                out.append(directory.as_str());
                out
            },
            Directive::LinkStatic(name) => {
                let mut out = "cargo:rustc-link-lib=static=".to_owned();
                out.append(name.as_str());
                out
            },
            Directive::AllowUndefined => {
                "cargo:rustc-link-arg=-Wl,-undefined,dynamic_lookup".to_owned()
            },
        }
    }
}

/// The directory into which the native library's own build tool puts the
/// static library.
pub open spec fn tool_output_directory(source: Seq<char>) -> Seq<char> {
    joined(source, TOOL_OUTPUT_SUBDIRECTORY@)
}

/// Whether load-time symbol lookup must be allowed on an operating system.
pub open spec fn relaxed_linkage(host_os: Option<Seq<char>>) -> bool {
    host_os == Some(RELAXED_LINKAGE_OS@)
}

/// What the linker is told after a build: where the static library is,
/// that it is linked statically, and, on the one operating system that
/// needs it, that symbols may stay open until load time.
pub open spec fn link_instructions(
    archive_dir: Seq<char>,
    host_os: Option<Seq<char>>,
) -> Seq<Instruction> {
    let always = seq![
        Instruction::LinkSearch(archive_dir),
        Instruction::LinkStatic(ARCHIVE_NAME@),
    ];
    if relaxed_linkage(host_os) {
        always.push(Instruction::AllowUndefined)
    } else {
        always
    }
}

/// The directory into which the native library's own build tool puts the
/// static library.
pub fn tool_output_dir(source: &str) -> (r: String)
    ensures
        r@ == tool_output_directory(source@),
{
    join(source, TOOL_OUTPUT_SUBDIRECTORY)
}

/// Whether load-time symbol lookup must be allowed on an operating system.
pub fn needs_relaxed_linkage(host_os: &Option<String>) -> (r: bool)
    ensures
        r == relaxed_linkage(host_os.deep_view()),
{
    match host_os {
        Some(name) => same_text(name.as_str(), RELAXED_LINKAGE_OS),
        None => false,
    }
}

/// What the linker is told after a build.
pub fn link_directives(archive_dir: &str, host_os: &Option<String>) -> (r: Vec<Directive>)
    ensures
        r.deep_view() == link_instructions(archive_dir@, host_os.deep_view()),
{
    let mut out: Vec<Directive> = Vec::new();
    out.push(Directive::LinkSearch(archive_dir.to_owned()));
    out.push(Directive::LinkStatic(ARCHIVE_NAME.to_owned()));
    if needs_relaxed_linkage(host_os) {
        out.push(Directive::AllowUndefined);
    }
    proof {
        assert(out.deep_view() =~= link_instructions(archive_dir@, host_os.deep_view()));
    }
    out
}

} // verus!
