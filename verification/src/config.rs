//! The named settings that steer a build, read once and handed to every
//! component by reference.

use vstd::prelude::*;

verus! {

/// The revision of the upstream repository that is checked out when no
/// other revision is asked for.
pub const DEFAULT_REVISION: &'static str = "79c060eea3eea1257797f15ea1608a9a9923aa6f";

/// The upstream repository of the native library.
pub const UPSTREAM_URL: &'static str = "https://www.bearssl.org/git/BearSSL";

/// Where, below the output directory, the fetched source tree is kept.
pub const CACHE_SUBDIRECTORY: &'static str = "deps/bearssl";

/// The operating system on which load-time symbol lookup must be allowed.
pub const RELAXED_LINKAGE_OS: &'static str = "macos";

/// A setting that a build consults.
#[derive(Clone, Copy, Debug, PartialEq, Eq, Structural)]
pub enum Variable {
    /// A directory that already holds built artifacts and headers.
    PrecompiledPath,
    /// A directory that holds buildable sources.
    SourcePath,
    /// The directory in which headers are looked up.
    IncludePath,
    /// The revision to check out in place of the default one.
    RevisionHash,
    /// The platform that is built for.
    TargetTriple,
    /// The operating system that is built for.
    HostOs,
    /// The build system's own output directory.
    OutputDir,
}

impl Variable {
    /// The name under which the setting is found in the environment.
    pub open spec fn spec_name(self) -> Seq<char> {
        match self {
            Variable::PrecompiledPath => "BEARSSL_PRECOMPILED_PATH"@,
            Variable::SourcePath => "BEARSSL_SOURCE_PATH"@,
            Variable::IncludePath => "BEARSSL_INCLUDE_PATH"@,
            Variable::RevisionHash => "BEARSSL_GIT_HASH"@,
            Variable::TargetTriple => "TARGET"@,
            Variable::HostOs => "CARGO_CFG_TARGET_OS"@,
            Variable::OutputDir => "OUT_DIR"@,
        }
    }

    /// The name under which the setting is found in the environment.
    pub fn name(self) -> (r: &'static str)
        ensures
            r@ == self.spec_name(),
    {
        match self {
            Variable::PrecompiledPath => "BEARSSL_PRECOMPILED_PATH",
            Variable::SourcePath => "BEARSSL_SOURCE_PATH",
            Variable::IncludePath => "BEARSSL_INCLUDE_PATH",
            Variable::RevisionHash => "BEARSSL_GIT_HASH",
            Variable::TargetTriple => "TARGET",
            Variable::HostOs => "CARGO_CFG_TARGET_OS",
            Variable::OutputDir => "OUT_DIR",
        }
    }

    /// Whether the build system provides the setting itself, rather than
    /// whoever starts the build.
    pub open spec fn spec_is_host_provided(self) -> bool {
        self == Variable::TargetTriple || self == Variable::HostOs || self == Variable::OutputDir
    }

    /// Whether the build system provides the setting itself.
    pub fn is_host_provided(self) -> (r: bool)
        ensures
            r == self.spec_is_host_provided(),
    {
        match self {
            Variable::TargetTriple => true,
            Variable::HostOs => true,
            Variable::OutputDir => true,
            _ => false,
        }
    }

    /// The settings in the order in which a build consults them.
    pub open spec fn spec_all() -> Seq<Variable> {
        seq![
            Variable::PrecompiledPath,
            Variable::SourcePath,
            Variable::OutputDir,
            Variable::RevisionHash,
            Variable::HostOs,
            Variable::IncludePath,
            Variable::TargetTriple,
        ]
    }

    /// The settings in the order in which a build consults them.
    pub fn all() -> (r: Vec<Variable>)
        ensures
            r@ == Variable::spec_all(),
    {
        let r = vec![
            Variable::PrecompiledPath,
            Variable::SourcePath,
            Variable::OutputDir,
            Variable::RevisionHash,
            Variable::HostOs,
            Variable::IncludePath,
            Variable::TargetTriple,
        ];
        assert(r@ =~= Variable::spec_all());
        r
    }
}

/// What an `EnvironmentConfiguration` holds: for each setting its text, or
/// nothing where the setting is absent.
pub struct Settings {
    pub precompiled_path: Option<Seq<char>>,
    pub source_path: Option<Seq<char>>,
    pub include_path: Option<Seq<char>>,
    pub revision_hash: Option<Seq<char>>,
    pub target_triple: Option<Seq<char>>,
    pub host_os: Option<Seq<char>>,
    pub output_dir: Option<Seq<char>>,
}

impl Settings {
    /// The settings of which none is present.
    pub open spec fn empty() -> Settings {
        Settings {
            precompiled_path: None,
            source_path: None,
            include_path: None,
            revision_hash: None,
            target_triple: None,
            host_os: None,
            output_dir: None,
        }
    }

    /// The text of one setting.
    pub open spec fn get(self, variable: Variable) -> Option<Seq<char>> {
        match variable {
            Variable::PrecompiledPath => self.precompiled_path,
            Variable::SourcePath => self.source_path,
            Variable::IncludePath => self.include_path,
            Variable::RevisionHash => self.revision_hash,
            Variable::TargetTriple => self.target_triple,
            Variable::HostOs => self.host_os,
            Variable::OutputDir => self.output_dir,
        }
    }

    /// These settings with one of them replaced.
    pub open spec fn with(self, variable: Variable, value: Option<Seq<char>>) -> Settings {
        match variable {
            Variable::PrecompiledPath => Settings { precompiled_path: value, ..self },
            Variable::SourcePath => Settings { source_path: value, ..self },
            Variable::IncludePath => Settings { include_path: value, ..self },
            Variable::RevisionHash => Settings { revision_hash: value, ..self },
            Variable::TargetTriple => Settings { target_triple: value, ..self },
            Variable::HostOs => Settings { host_os: value, ..self },
            Variable::OutputDir => Settings { output_dir: value, ..self },
        }
    }

    /// The revision that is checked out: the one asked for, else the default.
    pub open spec fn revision(self) -> Seq<char> {
        match self.revision_hash {
            Some(hash) => hash,
            None => DEFAULT_REVISION@,
        }
    }
}

/// The settings of one build. An absent setting is no error: it makes the
/// build fall back on what it does without it.
#[derive(Clone, Debug, PartialEq, Eq)]
pub struct EnvironmentConfiguration {
    pub precompiled_path: Option<String>,
    pub source_path: Option<String>,
    pub include_path: Option<String>,
    pub revision_hash: Option<String>,
    pub target_triple: Option<String>,
    pub host_os: Option<String>,
    pub output_dir: Option<String>,
}

impl View for EnvironmentConfiguration {
    type V = Settings;

    open spec fn view(&self) -> Settings {
        Settings {
            precompiled_path: self.precompiled_path.deep_view(),
            source_path: self.source_path.deep_view(),
            include_path: self.include_path.deep_view(),
            revision_hash: self.revision_hash.deep_view(),
            target_triple: self.target_triple.deep_view(),
            host_os: self.host_os.deep_view(),
            output_dir: self.output_dir.deep_view(),
        }
    }
}

impl EnvironmentConfiguration {
    /// A configuration in which every setting is absent.
    pub fn new() -> (r: EnvironmentConfiguration)
        ensures
            r@ == Settings::empty(),
    {
        EnvironmentConfiguration {
            precompiled_path: None,
            source_path: None,
            include_path: None,
            revision_hash: None,
            target_triple: None,
            host_os: None,
            output_dir: None,
        }
    }

    /// Records what was read for one setting; `None` where it is absent.
    pub fn set(&mut self, variable: Variable, value: Option<String>)
        ensures
            final(self)@ == old(self)@.with(variable, value.deep_view()),
    {
        match variable {
            Variable::PrecompiledPath => { self.precompiled_path = value; },
            Variable::SourcePath => { self.source_path = value; },
            Variable::IncludePath => { self.include_path = value; },
            Variable::RevisionHash => { self.revision_hash = value; },
            Variable::TargetTriple => { self.target_triple = value; },
            Variable::HostOs => { self.host_os = value; },
            Variable::OutputDir => { self.output_dir = value; },
        }
    }

    /// The text of one setting, where it is present.
    pub fn get(&self, variable: Variable) -> (r: Option<&String>)
        ensures
            r.deep_view() == self@.get(variable),
    {
        match variable {
            Variable::PrecompiledPath => self.precompiled_path.as_ref(),
            Variable::SourcePath => self.source_path.as_ref(),
            Variable::IncludePath => self.include_path.as_ref(),
            Variable::RevisionHash => self.revision_hash.as_ref(),
            Variable::TargetTriple => self.target_triple.as_ref(),
            Variable::HostOs => self.host_os.as_ref(),
            Variable::OutputDir => self.output_dir.as_ref(),
        }
    }

    /// The revision that is checked out: the one asked for, else the default.
    pub fn revision(&self) -> (r: String)
        ensures
            r@ == self@.revision(),
            self@.revision_hash is None ==> r@ == DEFAULT_REVISION@,
    {
        match &self.revision_hash {
            Some(hash) => hash.clone(),
            None => DEFAULT_REVISION.to_owned(),
        }
    }
}

} // verus!
