//! Sanity check of the platform label an interpreter reports against the
//! host operating system the build tool was compiled for.

use vstd::prelude::*;
use crate::error::ErrorKind;
use crate::error::ErrorKindModel;
use crate::metadata::InterpreterMetadata;
use crate::text::str_eqs;

verus! {

/// The host operating system a given platform label is expected on, if the
/// label is known at all.
pub open spec fn expected_host(platform: Seq<char>) -> Option<Seq<char>> {
    if platform == "win32"@ || platform == "win_amd64"@ {
        Option::Some("windows"@)
    } else if platform == "linux"@ || platform == "linux2"@ || platform == "linux3"@ {
        Option::Some("linux"@)
    } else if platform == "darwin"@ {
        Option::Some("macos"@)
    } else {
        Option::None
    }
}

/// A reported platform label is sane exactly when it is a known label whose
/// expected host equals the compiled-in host.
pub open spec fn platform_ok(platform: Seq<char>, host: Seq<char>) -> bool {
    expected_host(platform) == Option::Some(host)
}

/// Checks that the platform label reported by the interpreter is consistent
/// with the compiled-in host operating system.
///
/// A mismatch indicates either a misidentified foreign-architecture
/// interpreter or a broken probe; either way the record that would be
/// resolved from this metadata could not be trusted.
pub fn check_platform_sanity(metadata: &InterpreterMetadata, host_os: &String) -> (r: Result<
    (),
    ErrorKind,
>)
    ensures
        r is Ok <==> platform_ok(metadata.platform@, host_os@),
        r matches Err(k) ==> k@ == (ErrorKindModel::PlatformMismatch {
            platform: metadata.platform@,
            host: host_os@,
        }),
{
    let expected: Option<&str> = if str_eqs(&metadata.platform, "win32") || str_eqs(
        &metadata.platform,
        "win_amd64",
    ) {
        Some("windows")
    } else if str_eqs(&metadata.platform, "linux") || str_eqs(&metadata.platform, "linux2")
        || str_eqs(&metadata.platform, "linux3") {
        Some("linux")
    } else if str_eqs(&metadata.platform, "darwin") {
        Some("macos")
    } else {
        None
    };
    let sane: bool = match expected {
        Some(e) => str_eqs(host_os, e),
        None => false,
    };
    if sane {
        Ok(())
    } else {
        Err(
            ErrorKind::PlatformMismatch {
                platform: metadata.platform.clone(),
                host: host_os.clone(),
            },
        )
    }
}

} // verus!
