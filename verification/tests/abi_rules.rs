use python_interpreter::abi::resolve_abiflags;
use python_interpreter::ErrorKind;
use python_interpreter::InterpreterMetadata;

fn meta(
    major: usize,
    minor: usize,
    abiflags: Option<&str>,
    m: bool,
    u: bool,
    d: bool,
    platform: &str,
) -> InterpreterMetadata {
    InterpreterMetadata {
        major,
        minor,
        abiflags: abiflags.map(|s| s.to_string()),
        m,
        u,
        d,
        platform: platform.to_string(),
    }
}

#[test]
fn python2_linux_md_flags_resolve() {
    let r = resolve_abiflags(&meta(2, 7, None, true, false, true, "linux"), &"linux".to_string());
    assert_eq!(r, Ok("md".to_string()));
}

#[test]
fn python2_linux_mu_flags_resolve() {
    let r = resolve_abiflags(&meta(2, 7, None, true, true, false, "linux"), &"linux".to_string());
    assert_eq!(r, Ok("mu".to_string()));
}

#[test]
fn python2_no_flags_resolve_to_empty() {
    for host in ["linux", "macos", "windows"] {
        let r =
            resolve_abiflags(&meta(2, 7, None, false, false, false, "linux"), &host.to_string());
        assert_eq!(r, Ok(String::new()));
    }
}

#[test]
fn python2_abiflags_present_fails_on_every_host() {
    for host in ["linux", "macos", "windows"] {
        for flags in ["", "m", "mu"] {
            let r = resolve_abiflags(
                &meta(2, 7, Some(flags), false, false, false, "linux"),
                &host.to_string(),
            );
            assert!(matches!(r, Err(ErrorKind::AbiFlagViolation { .. })), "host {}", host);
        }
    }
}

#[test]
fn python2_windows_nonempty_concatenation_fails() {
    let cases = [(true, false, false), (false, true, false), (false, false, true)];
    for (m, u, d) in cases {
        let r = resolve_abiflags(&meta(2, 7, None, m, u, d, "win32"), &"windows".to_string());
        assert!(matches!(r, Err(ErrorKind::AbiFlagViolation { .. })));
    }
}

#[test]
fn python36_linux_abiflags_m_resolves() {
    let r =
        resolve_abiflags(&meta(3, 6, Some("m"), false, false, false, "linux"), &"linux".to_string());
    assert_eq!(r, Ok("m".to_string()));
}

#[test]
fn python36_linux_abiflags_mu_fails() {
    let r = resolve_abiflags(
        &meta(3, 6, Some("mu"), false, false, false, "linux"),
        &"linux".to_string(),
    );
    assert!(matches!(r, Err(ErrorKind::AbiFlagViolation { .. })));
}

#[test]
fn python36_linux_abiflags_absent_fails() {
    let r = resolve_abiflags(&meta(3, 6, None, false, false, false, "linux"), &"linux".to_string());
    assert!(matches!(r, Err(ErrorKind::AbiFlagViolation { .. })));
}

#[test]
fn python36_macos_abiflags_m_resolves() {
    let r = resolve_abiflags(
        &meta(3, 6, Some("m"), false, false, false, "darwin"),
        &"macos".to_string(),
    );
    assert_eq!(r, Ok("m".to_string()));
}

#[test]
fn python36_windows_abiflags_absent_resolves_to_empty() {
    let r =
        resolve_abiflags(&meta(3, 6, None, false, false, false, "win32"), &"windows".to_string());
    assert_eq!(r, Ok(String::new()));
}

#[test]
fn python36_windows_abiflags_present_fails() {
    for flags in ["", "m"] {
        let r = resolve_abiflags(
            &meta(3, 6, Some(flags), false, false, false, "win32"),
            &"windows".to_string(),
        );
        assert!(matches!(r, Err(ErrorKind::AbiFlagViolation { .. })));
    }
}

#[test]
fn python34_unsupported_on_every_host() {
    for host in ["linux", "macos", "windows"] {
        let r = resolve_abiflags(&meta(3, 4, None, false, false, false, "linux"), &host.to_string());
        assert_eq!(
            r,
            Err(ErrorKind::UnsupportedInterpreterVersion { major: 3, minor: 4 }),
            "host {}",
            host
        );
    }
}

#[test]
fn python1_unsupported_version() {
    let r = resolve_abiflags(&meta(1, 5, None, false, false, false, "linux"), &"linux".to_string());
    assert_eq!(r, Err(ErrorKind::UnsupportedInterpreterVersion { major: 1, minor: 5 }));
}

#[test]
fn python36_unknown_host_is_unsupported_platform() {
    let r =
        resolve_abiflags(&meta(3, 6, Some("m"), false, false, false, "linux"), &"freebsd".to_string());
    assert_eq!(r, Err(ErrorKind::UnsupportedPlatform { os: "freebsd".to_string() }));
}

#[test]
fn unsupported_version_message_names_the_version() {
    let kind = ErrorKind::UnsupportedInterpreterVersion { major: 3, minor: 4 };
    assert_eq!(kind.message(), "only python 2.7 and python 3.5+ are supported, not 3.4");
}

#[test]
fn abi_flag_violation_message_names_the_rule() {
    let r = resolve_abiflags(&meta(2, 7, Some("m"), false, false, false, "linux"), &"linux".to_string());
    match r {
        Err(ErrorKind::AbiFlagViolation { message }) => {
            assert_eq!(message, "a version 2 interpreter does not define abi flags in its sysconfig");
        }
        other => panic!("expected an abi flag violation, got {:?}", other),
    }
}
