//! What can go wrong in a build, and how a finished process is judged.

use vstd::prelude::*;
use crate::config::Variable;

verus! {

/// The text of one decimal digit.
pub open spec fn digit(d: int) -> Seq<char> {
    if d == 0 {
        "0"@
    } else if d == 1 {
        "1"@
    } else if d == 2 {
        "2"@
    } else if d == 3 {
        "3"@
    } else if d == 4 {
        "4"@
    } else if d == 5 {
        "5"@
    } else if d == 6 {
        "6"@
    } else if d == 7 {
        "7"@
    } else if d == 8 {
        "8"@
    } else {
        "9"@
    }
}

/// A natural number in decimal, without leading zeros.
pub open spec fn digits(n: nat) -> Seq<char>
    decreases n,
{
    if n < 10 {
        digit(n as int)
    } else {
        digits(n / 10) + digit((n % 10) as int)
    }
}

/// An integer in decimal, with a minus sign where it is negative.
pub open spec fn decimal(n: int) -> Seq<char> {
    if n < 0 {
        "-"@ + digits((-n) as nat)
    } else {
        digits(n as nat)
    }
}

fn digit_text(d: u32) -> (r: &'static str)
    requires
        d < 10,
    ensures
        r@ == digit(d as int),
{
    if d == 0 {
        "0"
    } else if d == 1 {
        "1"
    } else if d == 2 {
        "2"
    } else if d == 3 {
        "3"
    } else if d == 4 {
        "4"
    } else if d == 5 {
        "5"
    } else if d == 6 {
        "6"
    } else if d == 7 {
        "7"
    } else if d == 8 {
        "8"
    } else {
        "9"
    }
}

fn digits_text(n: u32) -> (r: String)
    ensures
        r@ == digits(n as nat),
    decreases n,
{
    if n < 10 {
        digit_text(n).to_owned()
    } else {
        let mut out = digits_text(n / 10);
        out.append(digit_text(n % 10));
        out
    }
}

/// Writes an integer in decimal.
pub fn decimal_text(n: i32) -> (r: String)
    ensures
        r@ == decimal(n as int),
{
    if n < 0 {
        let magnitude: u32 = (-(n as i64)) as u32;
        let mut out = "-".to_owned();
        let rest = digits_text(magnitude);
        out.append(rest.as_str());
        out
    } else {
        digits_text(n as u32)
    }
}

/// How a process ended: with an exit code, or without one where it was
/// stopped from outside or never ran.
#[derive(Clone, Copy, Debug, PartialEq, Eq)]
pub struct ExitStatus {
    pub code: Option<i32>,
}

impl ExitStatus {
    /// A process has succeeded exactly when it ended with exit code 0.
    pub open spec fn spec_success(self) -> bool {
        self.code == Some(0i32)
    }

    /// Whether the process succeeded.
    pub fn success(&self) -> (r: bool)
        ensures
            r == self.spec_success(),
    {
        match self.code {
            Some(code) => code == 0,
            None => false,
        }
    }

    /// The status in words.
    pub open spec fn spec_describe(self) -> Seq<char> {
        match self.code {
            Some(code) => "exit status: "@ + decimal(code as int),
            None => "no exit status"@,
        }
    }

    /// The status in words.
    pub fn describe(&self) -> (r: String)
        ensures
            r@ == self.spec_describe(),
    {
        match self.code {
            Some(code) => {
                let mut out = "exit status: ".to_owned();
                let number = decimal_text(code);
                out.append(number.as_str());
                out
            },
            None => "no exit status".to_owned(),
        }
    }

    /// Nothing for a process that succeeded, and its status as an error for
    /// one that did not.
    pub fn exit_ok(&self) -> (r: Result<(), ExitStatusError>)
        ensures
            self.spec_success() ==> r == Ok::<(), ExitStatusError>(()),
            !self.spec_success() ==> r == Err::<(), ExitStatusError>(ExitStatusError(*self)),
    {
        if self.success() {
            Ok(())
        } else {
            Err(ExitStatusError(*self))
        }
    }
}

/// The status of a process that did not succeed.
#[derive(Clone, Copy, Debug, PartialEq, Eq)]
pub struct ExitStatusError(pub ExitStatus);

impl ExitStatusError {
    /// The error in words.
    pub open spec fn spec_message(self) -> Seq<char> {
        "process exited unsuccessfully: "@ + self.0.spec_describe()
    }

    /// The error in words.
    pub fn message(&self) -> (r: String)
        ensures
            r@ == self.spec_message(),
    {
        let mut out = "process exited unsuccessfully: ".to_owned();
        let status = self.0.describe();
        out.append(status.as_str());
        out
    }
}

/// The part of a build in which something happened.
#[derive(Clone, Copy, Debug, PartialEq, Eq, Structural)]
pub enum Stage {
    /// Finding the native library's sources or artifacts.
    Resolution,
    /// Compiling the native library.
    Compilation,
    /// Translating the headers.
    Generation,
}

impl Stage {
    /// The stage's name.
    pub open spec fn spec_name(self) -> Seq<char> {
        match self {
            Stage::Resolution => "resolution"@,
            Stage::Compilation => "compilation"@,
            Stage::Generation => "generation"@,
        }
    }

    /// The stage's name.
    pub fn name(self) -> (r: &'static str)
        ensures
            r@ == self.spec_name(),
    {
        match self {
            Stage::Resolution => "resolution",
            Stage::Compilation => "compilation",
            Stage::Generation => "generation",
        }
    }
}

/// The kinds of failure.
#[derive(Clone, Copy, Debug, PartialEq, Eq)]
pub enum FailureKind {
    /// The path that a setting names does not exist. The build goes on
    /// with the next place to look.
    MissingLocation(Variable),
    /// A process ended without success.
    ExternalProcessFailure(ExitStatus),
    /// A setting that is needed, and has no default, is absent or unusable.
    ConfigurationReadFailure(Variable),
    /// The pattern for the source files is malformed or matches nothing.
    PatternMatchFailure,
    /// The headers could not be translated.
    TranslationFailure,
}

impl FailureKind {
    /// Every kind but a missing location ends the build.
    pub open spec fn spec_is_fatal(self) -> bool {
        !(self is MissingLocation)
    }

    /// Whether a failure of this kind ends the build.
    pub fn is_fatal(&self) -> (r: bool)
        ensures
            r == self.spec_is_fatal(),
    {
        match self {
            FailureKind::MissingLocation(_) => false,
            _ => true,
        }
    }

    /// The kind in words.
    pub open spec fn spec_message(self) -> Seq<char> {
        match self {
            FailureKind::MissingLocation(variable) => "no such path: "@ + variable.spec_name(),
            FailureKind::ExternalProcessFailure(status) => ExitStatusError(status).spec_message(),
            FailureKind::ConfigurationReadFailure(variable) => "absent or unusable: "@
                + variable.spec_name(),
            FailureKind::PatternMatchFailure => "source file pattern malformed or without match"@,
            FailureKind::TranslationFailure => "unable to generate bindings"@,
        }
    }

    /// The kind in words.
    pub fn message(&self) -> (r: String)
        ensures
            r@ == self.spec_message(),
    {
        match self {
            FailureKind::MissingLocation(variable) => {
                let mut out = "no such path: ".to_owned();
                out.append(variable.name());
                out
            },
            FailureKind::ExternalProcessFailure(status) => ExitStatusError(*status).message(),
            FailureKind::ConfigurationReadFailure(variable) => {
                let mut out = "absent or unusable: ".to_owned();
                out.append(variable.name());
                out
            },
            FailureKind::PatternMatchFailure => {
                "source file pattern malformed or without match".to_owned()
            },
            FailureKind::TranslationFailure => "unable to generate bindings".to_owned(),
        }
    }
}

/// A failure together with the stage in which it arose.
#[derive(Clone, Copy, Debug, PartialEq, Eq)]
pub struct Failure {
    pub stage: Stage,
    pub kind: FailureKind,
}

impl Failure {
    /// The stage's name, a colon and the kind in words.
    pub open spec fn spec_message(self) -> Seq<char> {
        self.stage.spec_name() + ": "@ + self.kind.spec_message()
    }

    /// The failure in words, starting with the stage it arose in.
    pub fn message(&self) -> (r: String)
        ensures
            r@ == self.spec_message(),
    {
        let mut out = self.stage.name().to_owned();
        out.append(": ");
        let kind = self.kind.message();
        out.append(kind.as_str());
        out
    }
}

} // verus!
