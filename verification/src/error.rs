//! The failure taxonomy of interpreter discovery.

use vstd::prelude::*;
use vstd::string::*;
use crate::text::append_decimal;
use crate::text::dec_rep;

verus! {

/// Which rule a probe attempt or a derivation violated.
///
/// `Absent` is deliberately not a variant here: a candidate executable that
/// cannot be located at all is silently skipped and never reported as an
/// error.
#[derive(Clone, Debug, PartialEq, Eq)]
pub enum ErrorKind {
    /// The candidate process started but exited with a non-zero status, or
    /// spawning it failed for a reason other than "no such program".
    ProcessFailure,
    /// The captured output was not one well-formed JSON object matching the
    /// raw metadata schema.
    ParseFailure,
    /// The platform label the interpreter reported is inconsistent with the
    /// host operating system the build tool was compiled for.
    PlatformMismatch { platform: String, host: String },
    /// The ABI-flags field or its value violates the version-specific rule;
    /// the message names the rule that was violated.
    AbiFlagViolation { message: String },
    /// Only major version 2 and major version 3 with minor version 5 or
    /// later are supported.
    UnsupportedInterpreterVersion { major: usize, minor: usize },
    /// The host operating system is outside {linux, macos, windows}.
    UnsupportedPlatform { os: String },
}

/// Mathematical model of [`ErrorKind`].
pub enum ErrorKindModel {
    ProcessFailure,
    ParseFailure,
    PlatformMismatch { platform: Seq<char>, host: Seq<char> },
    AbiFlagViolation { message: Seq<char> },
    UnsupportedInterpreterVersion { major: int, minor: int },
    UnsupportedPlatform { os: Seq<char> },
}

impl View for ErrorKind {
    type V = ErrorKindModel;

    open spec fn view(&self) -> ErrorKindModel {
        match self {
            ErrorKind::ProcessFailure => ErrorKindModel::ProcessFailure,
            ErrorKind::ParseFailure => ErrorKindModel::ParseFailure,
            ErrorKind::PlatformMismatch { platform, host } => (ErrorKindModel::PlatformMismatch {
                platform: platform@,
                host: host@,
            }),
            ErrorKind::AbiFlagViolation { message } => (ErrorKindModel::AbiFlagViolation {
                message: message@,
            }),
            ErrorKind::UnsupportedInterpreterVersion { major, minor } => (
            ErrorKindModel::UnsupportedInterpreterVersion {
                major: *major as int,
                minor: *minor as int,
            }),
            ErrorKind::UnsupportedPlatform { os } => (ErrorKindModel::UnsupportedPlatform {
                os: os@,
            }),
        }
    }
}

/// A hard discovery failure: the rule violation together with the candidate
/// executable it was observed on.
///
/// Any such failure aborts an entire discovery call; records already
/// resolved for earlier candidates are discarded.
#[derive(Clone, Debug, PartialEq, Eq)]
pub struct DiscoveryError {
    /// The candidate executable identifier the failure belongs to.
    pub executable: String,
    /// The rule that was violated.
    pub kind: ErrorKind,
}

/// Mathematical model of [`DiscoveryError`].
pub struct DiscoveryErrorModel {
    pub executable: Seq<char>,
    pub kind: ErrorKindModel,
}

impl View for DiscoveryError {
    type V = DiscoveryErrorModel;

    open spec fn view(&self) -> DiscoveryErrorModel {
        DiscoveryErrorModel { executable: self.executable@, kind: self.kind@ }
    }
}

/// The human-readable explanation of a rule violation.
pub open spec fn kind_message(kind: ErrorKindModel) -> Seq<char> {
    match kind {
        ErrorKindModel::ProcessFailure => "the interpreter process failed"@,
        ErrorKindModel::ParseFailure => "the interpreter metadata did not parse"@,
        ErrorKindModel::PlatformMismatch { platform, host } => "sys.platform in python, "@
            + platform + ", and the host os in rust, "@ + host + ", don't match"@,
        ErrorKindModel::AbiFlagViolation { message } => message,
        ErrorKindModel::UnsupportedInterpreterVersion { major, minor } => "only python 2.7 and python 3.5+ are supported, not "@
            + dec_rep(if major >= 0 {
            major as nat
        } else {
            0
        }) + "."@ + dec_rep(
            if minor >= 0 {
                minor as nat
            } else {
                0
            },
        ),
        ErrorKindModel::UnsupportedPlatform { os } => "the host platform "@ + os
            + " is not supported"@,
    }
}

/// The full explanation of a discovery failure, naming the candidate the
/// failure was observed on.
pub open spec fn error_message(e: DiscoveryErrorModel) -> Seq<char> {
    "probing the python interpreter "@ + e.executable + " failed: "@ + kind_message(e.kind)
}

impl ErrorKind {
    /// Explains in words which rule was violated.
    pub fn message(&self) -> (r: String)
        ensures
            r@ == kind_message(self@),
    {
        let mut line = String::new();
        match self {
            ErrorKind::ProcessFailure => {
                line.append("the interpreter process failed");
            },
            ErrorKind::ParseFailure => {
                line.append("the interpreter metadata did not parse");
            },
            ErrorKind::PlatformMismatch { platform, host } => {
                line.append("sys.platform in python, ");
                line.append(platform.as_str());
                line.append(", and the host os in rust, ");
                line.append(host.as_str());
                line.append(", don't match");
            },
            ErrorKind::AbiFlagViolation { message } => {
                line.append(message.as_str());
            },
            ErrorKind::UnsupportedInterpreterVersion { major, minor } => {
                line.append("only python 2.7 and python 3.5+ are supported, not ");
                append_decimal(&mut line, *major);
                line.append(".");
                append_decimal(&mut line, *minor);
            },
            ErrorKind::UnsupportedPlatform { os } => {
                line.append("the host platform ");
                line.append(os.as_str());
                line.append(" is not supported");
            },
        }
        proof {
            assert(line@ =~= kind_message(self@));
        }
        line
    }
}

impl DiscoveryError {
    /// Explains in words which candidate failed and which rule it
    /// violated.
    pub fn message(&self) -> (r: String)
        ensures
            r@ == error_message(self@),
    {
        let mut line = String::new();
        line.append("probing the python interpreter ");
        line.append(self.executable.as_str());
        line.append(" failed: ");
        let kind_text = self.kind.message();
        line.append(kind_text.as_str());
        proof {
            assert(line@ =~= error_message(self@));
        }
        line
    }
}

} // verus!
