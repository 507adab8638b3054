//! Raw, untrusted interpreter metadata and compile-time host facts.

use vstd::prelude::*;

verus! {

/// The raw configuration one candidate interpreter reports about itself.
///
/// Nothing in here is trusted yet: the platform label still has to pass the
/// sanity check, and the version and flag fields still have to pass the ABI
/// resolution rules, before a [`crate::interpreter::PythonInterpreter`]
/// record is built from it.
#[derive(Clone, Debug, PartialEq, Eq)]
pub struct InterpreterMetadata {
    /// Major version of the interpreter.
    pub major: usize,
    /// Minor version of the interpreter.
    pub minor: usize,
    /// The ABI-flags string the interpreter reports, if it defines one.
    ///
    /// "Absent" and "empty string" carry different meanings across the
    /// version/OS rule table, so the field stays an `Option`.
    pub abiflags: Option<String>,
    /// Whether the interpreter was built with the malloc variant.
    pub m: bool,
    /// Whether the interpreter was built with wide unicode.
    pub u: bool,
    /// Whether the interpreter is a debug build.
    pub d: bool,
    /// The platform label the interpreter reports (its `sys.platform`).
    pub platform: String,
}

/// Mathematical model of [`InterpreterMetadata`].
pub struct MetadataModel {
    pub major: int,
    pub minor: int,
    pub abiflags: Option<Seq<char>>,
    pub m: bool,
    pub u: bool,
    pub d: bool,
    pub platform: Seq<char>,
}

impl View for InterpreterMetadata {
    type V = MetadataModel;

    open spec fn view(&self) -> MetadataModel {
        MetadataModel {
            major: self.major as int,
            minor: self.minor as int,
            abiflags: match self.abiflags {
                Option::Some(s) => Option::Some(s@),
                Option::None => Option::None,
            },
            m: self.m,
            u: self.u,
            d: self.d,
            platform: self.platform@,
        }
    }
}

/// Facts about the host the build tool itself was compiled for.
///
/// They are passed in explicitly rather than read from ambient compile-time
/// state, so that every OS/architecture branch of the rule tables can be
/// exercised from one build.
#[derive(Clone, Debug, PartialEq, Eq)]
pub struct HostFacts {
    /// Host operating system identifier: "linux", "macos" or "windows".
    pub os: String,
    /// CPU architecture identifier, e.g. "x86_64".
    pub arch: String,
    /// Platform environment name, e.g. the libc flavor "gnu" on linux.
    pub env: String,
    /// Pointer width in bits, as a string: "64" or "32".
    pub pointer_width: String,
}

/// Mathematical model of [`HostFacts`].
pub struct HostFactsModel {
    pub os: Seq<char>,
    pub arch: Seq<char>,
    pub env: Seq<char>,
    pub pointer_width: Seq<char>,
}

impl View for HostFacts {
    type V = HostFactsModel;

    open spec fn view(&self) -> HostFactsModel {
        HostFactsModel {
            os: self.os@,
            arch: self.arch@,
            env: self.env@,
            pointer_width: self.pointer_width@,
        }
    }
}

} // verus!
