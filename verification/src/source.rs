//! Where the native library comes from.

use vstd::prelude::*;
use crate::config::{CACHE_SUBDIRECTORY, EnvironmentConfiguration, Settings, Variable};
use crate::path::{join, joined};

verus! {

/// One of the places in which the native library is looked for, in the
/// order in which they are tried.
#[derive(Clone, Copy, Debug, PartialEq, Eq, Structural)]
pub enum Tier {
    /// The directory named as holding built artifacts.
    Precompiled,
    /// The directory named as holding sources.
    Source,
    /// The source tree fetched from upstream.
    Cache,
}

impl Tier {
    /// The setting on which the tier's directory depends.
    pub open spec fn spec_variable(self) -> Variable {
        match self {
            Tier::Precompiled => Variable::PrecompiledPath,
            Tier::Source => Variable::SourcePath,
            Tier::Cache => Variable::OutputDir,
        }
    }

    /// The setting on which the tier's directory depends.
    pub fn variable(self) -> (r: Variable)
        ensures
            r == self.spec_variable(),
    {
        match self {
            Tier::Precompiled => Variable::PrecompiledPath,
            Tier::Source => Variable::SourcePath,
            Tier::Cache => Variable::OutputDir,
        }
    }
}

/// What a `SourceLocation` holds.
pub enum Location {
    Precompiled(Seq<char>),
    Raw(Seq<char>),
}

impl Location {
    /// The directory, whatever it holds.
    pub open spec fn directory(self) -> Seq<char> {
        match self {
            Location::Precompiled(directory) => directory,
            Location::Raw(directory) => directory,
        }
    }
}

/// The outcome of looking for the native library: a directory of built
/// artifacts and headers, or a directory of sources that are still to be
/// built.
#[derive(Clone, Debug, PartialEq, Eq)]
pub enum SourceLocation {
    Precompiled(String),
    Raw(String),
}

impl View for SourceLocation {
    type V = Location;

    open spec fn view(&self) -> Location {
        match self {
            SourceLocation::Precompiled(directory) => Location::Precompiled(directory@),
            SourceLocation::Raw(directory) => Location::Raw(directory@),
        }
    }
}

impl DeepView for SourceLocation {
    type V = Location;

    open spec fn deep_view(&self) -> Location {
        self@
    }
}

impl SourceLocation {
    /// The directory, whatever it holds.
    pub fn directory(&self) -> (r: &String)
        ensures
            r@ == self@.directory(),
    {
        match self {
            SourceLocation::Precompiled(directory) => directory,
            SourceLocation::Raw(directory) => directory,
        }
    }

    /// Whether the directory holds built artifacts.
    pub fn is_precompiled(&self) -> (r: bool)
        ensures
            r == (self@ is Precompiled),
    {
        match self {
            SourceLocation::Precompiled(_) => true,
            SourceLocation::Raw(_) => false,
        }
    }

    /// A copy of the location.
    pub fn duplicate(&self) -> (r: SourceLocation)
        ensures
            r@ == self@,
    {
        match self {
            SourceLocation::Precompiled(directory) => SourceLocation::Precompiled(
                directory.clone(),
            ),
            SourceLocation::Raw(directory) => SourceLocation::Raw(directory.clone()),
        }
    }
}

/// The directory that holds the fetched source tree: a fixed place below
/// the output directory.
pub open spec fn cache_directory(settings: Settings) -> Option<Seq<char>> {
    match settings.output_dir {
        Some(output) => Some(joined(output, CACHE_SUBDIRECTORY@)),
        None => None,
    }
}

/// The location that a tier stands for, where the setting that it depends
/// on is present.
pub open spec fn location(settings: Settings, tier: Tier) -> Option<Location> {
    match tier {
        Tier::Precompiled => match settings.precompiled_path {
            Some(directory) => Some(Location::Precompiled(directory)),
            None => None,
        },
        Tier::Source => match settings.source_path {
            Some(directory) => Some(Location::Raw(directory)),
            None => None,
        },
        Tier::Cache => match cache_directory(settings) {
            Some(directory) => Some(Location::Raw(directory)),
            None => None,
        },
    }
}

/// The directory that holds the fetched source tree.
pub fn cache_dir(config: &EnvironmentConfiguration) -> (r: Option<String>)
    ensures
        r.deep_view() == cache_directory(config@),
{
    match &config.output_dir {
        Some(output) => Some(join(output.as_str(), CACHE_SUBDIRECTORY)),
        None => None,
    }
}

/// The location that a tier stands for.
pub fn locate(config: &EnvironmentConfiguration, tier: Tier) -> (r: Option<SourceLocation>)
    ensures
        r.deep_view() == location(config@, tier),
{
    match tier {
        Tier::Precompiled => match &config.precompiled_path {
            Some(directory) => Some(SourceLocation::Precompiled(directory.clone())),
            None => None,
        },
        Tier::Source => match &config.source_path {
            Some(directory) => Some(SourceLocation::Raw(directory.clone())),
            None => None,
        },
        Tier::Cache => match cache_dir(config) {
            Some(directory) => Some(SourceLocation::Raw(directory)),
            None => None,
        },
    }
}

} // verus!
