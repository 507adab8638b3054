//! The resolved description of one discovered interpreter, and the two
//! strings derived from it: the platform-compatibility tag and the filename
//! suffix of a compiled native extension.

use vstd::prelude::*;
use vstd::string::*;
use crate::error::ErrorKind;
use crate::error::ErrorKindModel;
use crate::metadata::HostFacts;
use crate::metadata::HostFactsModel;
use crate::text::append_decimal;
use crate::text::dec_rep;
use crate::text::str_eqs;

verus! {

/// The location and resolved identity of one interpreter.
///
/// Constructed by the discovery pipeline once a probe has passed the
/// platform sanity check and the ABI resolution rules; immutable
/// thereafter.
#[derive(Clone, Debug, PartialEq, Eq)]
pub struct PythonInterpreter {
    /// Python's major version.
    pub major: usize,
    /// Python's minor version.
    pub minor: usize,
    /// The resolved ABI-flags string, e.g. "m" for python3.5m or "mu" for
    /// python2.7mu. Never absent: on windows it is always the empty string.
    pub abiflags: String,
    /// The host operating system the build tool was compiled for:
    /// "windows", "linux" or "macos".
    pub target: String,
    /// The path or bare name used to invoke the interpreter, e.g.
    /// /usr/bin/python3.6 or just python3.5.
    pub executable: String,
}

/// Mathematical model of [`PythonInterpreter`].
pub struct InterpreterModel {
    pub major: int,
    pub minor: int,
    pub abiflags: Seq<char>,
    pub target: Seq<char>,
    pub executable: Seq<char>,
}

impl View for PythonInterpreter {
    type V = InterpreterModel;

    open spec fn view(&self) -> InterpreterModel {
        InterpreterModel {
            major: self.major as int,
            minor: self.minor as int,
            abiflags: self.abiflags@,
            target: self.target@,
            executable: self.executable@,
        }
    }
}

/// Whether tag and suffix generation support this host operating system.
pub open spec fn target_supported(target: Seq<char>) -> bool {
    target == "linux"@ || target == "macos"@ || target == "windows"@
}

/// The platform part of the compatibility tag: a broad-compatibility
/// manylinux baseline on linux, a multi-version compatibility string on
/// macos, and the pointer-width-dependent windows tag otherwise.
pub open spec fn platform_tag(target: Seq<char>, pointer_width: Seq<char>) -> Seq<char> {
    if target == "linux"@ {
        "manylinux1_x86_64"@
    } else if target == "macos"@ {
        "macosx_10_6_intel.macosx_10_9_intel.macosx_10_9_x86_64.macosx_10_10_intel.macosx_10_10_x86_64"@
    } else {
        if pointer_width == "64"@ {
            "win_amd64"@
        } else {
            "win32"@
        }
    }
}

/// The compatibility tag of a record:
/// `cp{major}{minor}-cp{major}{minor}{abiflags}-{platform tag}`.
pub open spec fn tag_spec(rec: InterpreterModel, facts: HostFactsModel) -> Seq<char> {
    "cp"@ + dec_rep(rec.major as nat) + dec_rep(rec.minor as nat) + "-cp"@ + dec_rep(
        rec.major as nat,
    ) + dec_rep(rec.minor as nat) + rec.abiflags + "-"@ + platform_tag(
        rec.target,
        facts.pointer_width,
    )
}

/// The shared-library suffix of a record: always ".so" for major version 2,
/// and otherwise the version-, flag- and platform-dependent form.
pub open spec fn extension_spec(rec: InterpreterModel, facts: HostFactsModel) -> Seq<char> {
    if rec.major == 2 {
        ".so"@
    } else if rec.target == "linux"@ {
        ".cpython-"@ + dec_rep(rec.major as nat) + dec_rep(rec.minor as nat) + rec.abiflags + "-"@
            + facts.arch + "-"@ + rec.target + "-"@ + facts.env + ".so"@
    } else if rec.target == "macos"@ {
        ".cpython-"@ + dec_rep(rec.major as nat) + dec_rep(rec.minor as nat) + rec.abiflags
            + "-darwin.so"@
    } else {
        ".cp"@ + dec_rep(rec.major as nat) + dec_rep(rec.minor as nat) + "-"@ + (if facts.pointer_width
            == "64"@ {
            "win_amd64"@
        } else {
            "win32"@
        }) + ".pyd"@
    }
}

/// The human-readable display form of a record:
/// `Python {major}.{minor}{abiflags} at {executable}`.
pub open spec fn display_spec(rec: InterpreterModel) -> Seq<char> {
    "Python "@ + dec_rep(rec.major as nat) + "."@ + dec_rep(rec.minor as nat) + rec.abiflags
        + " at "@ + rec.executable
}

impl PythonInterpreter {
    /// Returns the supported environment of this interpreter in the
    /// `{python tag}-{abi tag}-{platform tag}` format, or reports the host
    /// operating system as unsupported.
    pub fn get_tag(&self, facts: &HostFacts) -> (r: Result<String, ErrorKind>)
        ensures
            r is Ok <==> target_supported(self.target@),
            r matches Ok(s) ==> s@ == tag_spec(self@, facts@),
            r matches Err(k) ==> k@ == (ErrorKindModel::UnsupportedPlatform { os: self.target@ }),
    {
        let platform: &str = if str_eqs(&self.target, "linux") {
            "manylinux1_x86_64"
        } else if str_eqs(&self.target, "macos") {
            "macosx_10_6_intel.macosx_10_9_intel.macosx_10_9_x86_64.macosx_10_10_intel.macosx_10_10_x86_64"
        } else if str_eqs(&self.target, "windows") {
            if str_eqs(&facts.pointer_width, "64") {
                "win_amd64"
            } else {
                "win32"
            }
        } else {
            return Err(ErrorKind::UnsupportedPlatform { os: self.target.clone() });
        };
        let mut tag = String::new();
        tag.append("cp");
        append_decimal(&mut tag, self.major);
        append_decimal(&mut tag, self.minor);
        tag.append("-cp");
        append_decimal(&mut tag, self.major);
        append_decimal(&mut tag, self.minor);
        tag.append(self.abiflags.as_str());
        tag.append("-");
        tag.append(platform);
        proof {
            assert(tag@ =~= tag_spec(self@, facts@));
        }
        Ok(tag)
    }

    /// Generates the filename suffix a compiled shared library must carry
    /// to be loadable by this interpreter, or reports the host operating
    /// system as unsupported.
    pub fn get_library_extension(&self, facts: &HostFacts) -> (r: Result<String, ErrorKind>)
        ensures
            r is Ok <==> (self.major == 2 || target_supported(self.target@)),
            r matches Ok(s) ==> s@ == extension_spec(self@, facts@),
            r matches Err(k) ==> k@ == (ErrorKindModel::UnsupportedPlatform { os: self.target@ }),
    {
        if self.major == 2 {
            return Ok(String::from_str(".so"));
        }
        let mut suffix = String::new();
        if str_eqs(&self.target, "linux") {
            suffix.append(".cpython-");
            append_decimal(&mut suffix, self.major);
            append_decimal(&mut suffix, self.minor);
            suffix.append(self.abiflags.as_str());
            suffix.append("-");
            suffix.append(facts.arch.as_str());
            suffix.append("-");
            suffix.append(self.target.as_str());
            suffix.append("-");
            suffix.append(facts.env.as_str());
            suffix.append(".so");
        } else if str_eqs(&self.target, "macos") {
            suffix.append(".cpython-");
            append_decimal(&mut suffix, self.major);
            append_decimal(&mut suffix, self.minor);
            suffix.append(self.abiflags.as_str());
            suffix.append("-darwin.so");
        } else if str_eqs(&self.target, "windows") {
            suffix.append(".cp");
            append_decimal(&mut suffix, self.major);
            append_decimal(&mut suffix, self.minor);
            suffix.append("-");
            if str_eqs(&facts.pointer_width, "64") {
                suffix.append("win_amd64");
            } else {
                suffix.append("win32");
            }
            suffix.append(".pyd");
        } else {
            return Err(ErrorKind::UnsupportedPlatform { os: self.target.clone() });
        }
        proof {
            assert(suffix@ =~= extension_spec(self@, facts@));
        }
        Ok(suffix)
    }

    /// Returns the human-readable display form of this interpreter, e.g.
    /// `Python 3.6m at /usr/bin/python3.6`.
    pub fn display_string(&self) -> (r: String)
        ensures
            r@ == display_spec(self@),
    {
        let mut line = String::new();
        line.append("Python ");
        append_decimal(&mut line, self.major);
        line.append(".");
        append_decimal(&mut line, self.minor);
        line.append(self.abiflags.as_str());
        line.append(" at ");
        line.append(self.executable.as_str());
        proof {
            assert(line@ =~= display_spec(self@));
        }
        line
    }
}

/// The shared-library suffix of a version 2 interpreter is exactly ".so",
/// regardless of the host OS and of every other record field or host fact.
pub proof fn lemma_major2_extension_is_so(rec: InterpreterModel, facts: HostFactsModel)
    requires
        rec.major == 2,
    ensures
        extension_spec(rec, facts) == ".so"@,
{
}

} // verus!
