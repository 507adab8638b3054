//! The ABI resolution rule table.
//!
//! A pure function maps (major version, minor version, host OS, optional
//! ABI-flags field, three build flags) to one resolved ABI-flags string or
//! to a classification failure.

use vstd::prelude::*;
use vstd::string::*;
use crate::error::ErrorKind;
use crate::error::ErrorKindModel;
use crate::metadata::InterpreterMetadata;
use crate::metadata::MetadataModel;
use crate::text::str_eqs;

verus! {

/// The ABI-flags string a version 2 interpreter's build flags assemble to:
/// "m" for the malloc variant, then "u" for wide unicode, then "d" for a
/// debug build, in that fixed order.
pub open spec fn flag_concat(m: bool, u: bool, d: bool) -> Seq<char> {
    (if m {
        seq!['m']
    } else {
        Seq::<char>::empty()
    }) + (if u {
        seq!['u']
    } else {
        Seq::<char>::empty()
    }) + (if d {
        seq!['d']
    } else {
        Seq::<char>::empty()
    })
}

/// The assembled flag string is empty exactly when no flag is set.
pub proof fn lemma_flag_concat_empty(m: bool, u: bool, d: bool)
    ensures
        (flag_concat(m, u, d) == Seq::<char>::empty()) <==> (!m && !u && !d),
{
    if !m && !u && !d {
        assert(flag_concat(m, u, d) =~= Seq::<char>::empty());
    } else {
        assert(flag_concat(m, u, d).len() > 0);
    }
}

/// Whether the rule table resolves this metadata on this host at all.
pub open spec fn abi_ok(meta: MetadataModel, os: Seq<char>) -> bool {
    if meta.major == 2 {
        meta.abiflags is None && !(flag_concat(meta.m, meta.u, meta.d) != Seq::<char>::empty()
            && os == "windows"@)
    } else if meta.major == 3 && meta.minor >= 5 {
        if os == "windows"@ {
            meta.abiflags is None
        } else if os == "linux"@ || os == "macos"@ {
            meta.abiflags == Option::Some("m"@)
        } else {
            false
        }
    } else {
        false
    }
}

/// The resolved ABI-flags string, meaningful when [`abi_ok`] holds.
pub open spec fn abi_resolved(meta: MetadataModel, os: Seq<char>) -> Seq<char> {
    if meta.major == 2 {
        flag_concat(meta.m, meta.u, meta.d)
    } else if os == "windows"@ {
        Seq::<char>::empty()
    } else {
        meta.abiflags.unwrap()
    }
}

/// The classification failure, meaningful when [`abi_ok`] does not hold.
pub open spec fn abi_failure(meta: MetadataModel, os: Seq<char>) -> ErrorKindModel {
    if meta.major == 2 {
        if meta.abiflags is Some {
            ErrorKindModel::AbiFlagViolation {
                message: "a version 2 interpreter does not define abi flags in its sysconfig"@,
            }
        } else {
            ErrorKindModel::AbiFlagViolation {
                message: "a version 2 interpreter on windows must resolve to empty abi flags"@,
            }
        }
    } else if meta.major == 3 && meta.minor >= 5 {
        if os == "windows"@ {
            ErrorKindModel::AbiFlagViolation {
                message: "a version 3 interpreter on windows does not define abi flags in its sysconfig"@,
            }
        } else if os == "linux"@ || os == "macos"@ {
            if meta.abiflags is Some {
                ErrorKindModel::AbiFlagViolation {
                    message: "a version 3 interpreter on linux or macos must have exactly 'm' as abi flags"@,
                }
            } else {
                ErrorKindModel::AbiFlagViolation {
                    message: "a version 3 interpreter on linux or macos must define abi flags in its sysconfig"@,
                }
            }
        } else {
            ErrorKindModel::UnsupportedPlatform { os }
        }
    } else {
        ErrorKindModel::UnsupportedInterpreterVersion { major: meta.major, minor: meta.minor }
    }
}

/// Resolves the ABI-flags string for one probed interpreter, or classifies
/// why the metadata violates the rule table.
///
/// The rules, in evaluation order:
/// - major version 2: the ABI-flags field must be absent; the resolved
///   string is assembled from the three build flags, except that on a
///   windows host only the empty assembly is allowed;
/// - major version 3, minor 5 or later: on windows the field must be absent
///   and the resolved string is empty; on linux or macos the field must be
///   present and exactly "m"; any other host is unsupported;
/// - anything else is an unsupported interpreter version.
pub fn resolve_abiflags(metadata: &InterpreterMetadata, host_os: &String) -> (r: Result<
    String,
    ErrorKind,
>)
    ensures
        r is Ok <==> abi_ok(metadata@, host_os@),
        r matches Ok(s) ==> s@ == abi_resolved(metadata@, host_os@),
        r matches Err(k) ==> k@ == abi_failure(metadata@, host_os@),
{
    if metadata.major == 2 {
        let mut flags = String::new();
        if metadata.m {
            flags.append("m");
        }
        if metadata.u {
            flags.append("u");
        }
        if metadata.d {
            flags.append("d");
        }
        proof {
            reveal_strlit("m");
            reveal_strlit("u");
            reveal_strlit("d");
            assert(flags@ =~= flag_concat(metadata.m, metadata.u, metadata.d));
            lemma_flag_concat_empty(metadata.m, metadata.u, metadata.d);
        }
        if metadata.abiflags.is_some() {
            return Err(
                ErrorKind::AbiFlagViolation {
                    message: String::from_str(
                        "a version 2 interpreter does not define abi flags in its sysconfig",
                    ),
                },
            );
        }
        let any_flag: bool = metadata.m || metadata.u || metadata.d;
        if any_flag && str_eqs(host_os, "windows") {
            return Err(
                ErrorKind::AbiFlagViolation {
                    message: String::from_str(
                        "a version 2 interpreter on windows must resolve to empty abi flags",
                    ),
                },
            );
        }
        Ok(flags)
    } else if metadata.major == 3 && metadata.minor >= 5 {
        if str_eqs(host_os, "windows") {
            if metadata.abiflags.is_some() {
                Err(
                    ErrorKind::AbiFlagViolation {
                        message: String::from_str(
                            "a version 3 interpreter on windows does not define abi flags in its sysconfig",
                        ),
                    },
                )
            } else {
                Ok(String::new())
            }
        } else if str_eqs(host_os, "linux") || str_eqs(host_os, "macos") {
            match &metadata.abiflags {
                Some(flags) => {
                    if str_eqs(flags, "m") {
                        Ok(flags.clone())
                    } else {
                        Err(
                            ErrorKind::AbiFlagViolation {
                                message: String::from_str(
                                    "a version 3 interpreter on linux or macos must have exactly 'm' as abi flags",
                                ),
                            },
                        )
                    }
                },
                None => Err(
                    ErrorKind::AbiFlagViolation {
                        message: String::from_str(
                            "a version 3 interpreter on linux or macos must define abi flags in its sysconfig",
                        ),
                    },
                ),
            }
        } else {
            Err(ErrorKind::UnsupportedPlatform { os: host_os.clone() })
        }
    } else {
        Err(
            ErrorKind::UnsupportedInterpreterVersion {
                major: metadata.major,
                minor: metadata.minor,
            },
        )
    }
}

/// A version 2 interpreter that defines the ABI-flags field always violates
/// the rule table with an ABI-flag violation, on every host OS.
pub proof fn lemma_major2_abiflags_present_violates(meta: MetadataModel, os: Seq<char>)
    requires
        meta.major == 2,
        meta.abiflags is Some,
    ensures
        !abi_ok(meta, os),
        abi_failure(meta, os) is AbiFlagViolation,
{
}

/// A version 2 interpreter on a windows host with any build flag set
/// violates the rule table with an ABI-flag violation: on windows a
/// non-empty flag assembly is disallowed.
pub proof fn lemma_major2_windows_flags_violate(meta: MetadataModel)
    requires
        meta.major == 2,
        meta.m || meta.u || meta.d,
    ensures
        !abi_ok(meta, "windows"@),
        abi_failure(meta, "windows"@) is AbiFlagViolation,
{
    lemma_flag_concat_empty(meta.m, meta.u, meta.d);
}

/// Every version outside 2.x and 3.5+ is rejected as an unsupported
/// interpreter version, on every host OS.
pub proof fn lemma_unsupported_version(meta: MetadataModel, os: Seq<char>)
    requires
        meta.major != 2,
        !(meta.major == 3 && meta.minor >= 5),
    ensures
        !abi_ok(meta, os),
        abi_failure(meta, os) == (ErrorKindModel::UnsupportedInterpreterVersion {
            major: meta.major,
            minor: meta.minor,
        }),
{
}

} // verus!
