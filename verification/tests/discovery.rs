use python_interpreter::discover::resolve_probe;
use python_interpreter::platform::check_platform_sanity;
use python_interpreter::DiscoveryError;
use python_interpreter::ErrorKind;
use python_interpreter::HostFacts;
use python_interpreter::InterpreterMetadata;
use python_interpreter::ProbeOutcome;
use python_interpreter::ProbeReport;
use python_interpreter::PythonInterpreter;

fn raw(
    major: usize,
    minor: usize,
    abiflags: Option<&str>,
    m: bool,
    u: bool,
    d: bool,
    platform: &str,
) -> InterpreterMetadata {
    InterpreterMetadata {
        major,
        minor,
        abiflags: abiflags.map(|s| s.to_string()),
        m,
        u,
        d,
        platform: platform.to_string(),
    }
}

fn linux_host() -> HostFacts {
    HostFacts {
        os: "linux".to_string(),
        arch: "x86_64".to_string(),
        env: "gnu".to_string(),
        pointer_width: "64".to_string(),
    }
}

fn report(executable: &str, outcome: ProbeOutcome) -> ProbeReport {
    ProbeReport { executable: executable.to_string(), outcome }
}

#[test]
fn darwin_label_on_windows_host_mismatches() {
    let meta = raw(3, 6, Some("m"), false, false, false, "darwin");
    let r = check_platform_sanity(&meta, &"windows".to_string());
    assert_eq!(
        r,
        Err(ErrorKind::PlatformMismatch {
            platform: "darwin".to_string(),
            host: "windows".to_string(),
        })
    );
}

#[test]
fn win32_label_on_windows_host_passes() {
    let meta = raw(3, 6, None, false, false, false, "win32");
    assert_eq!(check_platform_sanity(&meta, &"windows".to_string()), Ok(()));
}

#[test]
fn linux2_and_linux3_labels_pass_on_linux() {
    for label in ["linux", "linux2", "linux3"] {
        let meta = raw(2, 7, None, true, true, false, label);
        assert_eq!(check_platform_sanity(&meta, &"linux".to_string()), Ok(()), "label {}", label);
    }
}

#[test]
fn unknown_label_mismatches_on_every_host() {
    for host in ["linux", "macos", "windows"] {
        let meta = raw(3, 6, Some("m"), false, false, false, "sunos");
        assert!(matches!(
            check_platform_sanity(&meta, &host.to_string()),
            Err(ErrorKind::PlatformMismatch { .. })
        ));
    }
}

#[test]
fn resolve_probe_builds_the_record() {
    let meta = raw(3, 6, Some("m"), false, false, false, "linux");
    let rec = resolve_probe(&meta, &"/usr/bin/python3.6".to_string(), &linux_host()).unwrap();
    assert_eq!(
        rec,
        PythonInterpreter {
            major: 3,
            minor: 6,
            abiflags: "m".to_string(),
            target: "linux".to_string(),
            executable: "/usr/bin/python3.6".to_string(),
        }
    );
}

#[test]
fn resolve_probe_checks_platform_before_abi() {
    // The platform label is insane and the version is unsupported; the
    // sanity check comes first.
    let meta = raw(3, 4, None, false, false, false, "darwin");
    let r = resolve_probe(&meta, &"python3.4".to_string(), &linux_host());
    assert_eq!(
        r,
        Err(DiscoveryError {
            executable: "python3.4".to_string(),
            kind: ErrorKind::PlatformMismatch {
                platform: "darwin".to_string(),
                host: "linux".to_string(),
            },
        })
    );
}

#[test]
fn find_all_skips_absent_candidates() {
    let reports = vec![
        report("python2.7", ProbeOutcome::Metadata(raw(2, 7, None, true, true, false, "linux2"))),
        report("does-not-exist", ProbeOutcome::Absent),
        report("python3.6", ProbeOutcome::Metadata(raw(3, 6, Some("m"), false, false, false, "linux"))),
    ];
    let records = PythonInterpreter::find_all(&reports, &linux_host()).unwrap();
    assert_eq!(records.len(), 2);
    assert_eq!(records[0].executable, "python2.7");
    assert_eq!(records[0].major, 2);
    assert_eq!(records[0].minor, 7);
    assert_eq!(records[0].abiflags, "mu");
    assert_eq!(records[0].target, "linux");
    assert_eq!(records[1].executable, "python3.6");
    assert_eq!(records[1].major, 3);
    assert_eq!(records[1].minor, 6);
    assert_eq!(records[1].abiflags, "m");
    assert_eq!(records[1].target, "linux");
}

#[test]
fn find_all_parse_failure_discards_everything() {
    let reports = vec![
        report("python2.7", ProbeOutcome::Metadata(raw(2, 7, None, true, true, false, "linux2"))),
        report("python3.5", ProbeOutcome::ParseFailure),
        report("python3.6", ProbeOutcome::Metadata(raw(3, 6, Some("m"), false, false, false, "linux"))),
    ];
    let r = PythonInterpreter::find_all(&reports, &linux_host());
    assert_eq!(
        r,
        Err(DiscoveryError {
            executable: "python3.5".to_string(),
            kind: ErrorKind::ParseFailure,
        })
    );
}

#[test]
fn find_all_process_failure_aborts() {
    let reports = vec![
        report("does-not-exist", ProbeOutcome::Absent),
        report("broken-python", ProbeOutcome::ProcessFailure),
    ];
    let r = PythonInterpreter::find_all(&reports, &linux_host());
    assert_eq!(
        r,
        Err(DiscoveryError {
            executable: "broken-python".to_string(),
            kind: ErrorKind::ProcessFailure,
        })
    );
}

#[test]
fn find_all_reports_the_first_failure_in_input_order() {
    let reports = vec![
        report("python3.4", ProbeOutcome::Metadata(raw(3, 4, None, false, false, false, "linux"))),
        report("broken-python", ProbeOutcome::ProcessFailure),
    ];
    let r = PythonInterpreter::find_all(&reports, &linux_host());
    assert_eq!(
        r,
        Err(DiscoveryError {
            executable: "python3.4".to_string(),
            kind: ErrorKind::UnsupportedInterpreterVersion { major: 3, minor: 4 },
        })
    );
}

#[test]
fn find_all_of_no_candidates_is_empty() {
    let reports: Vec<ProbeReport> = Vec::new();
    let records = PythonInterpreter::find_all(&reports, &linux_host()).unwrap();
    assert!(records.is_empty());
}

#[test]
fn identical_interpreters_are_not_deduplicated() {
    let reports = vec![
        report("python3.6", ProbeOutcome::Metadata(raw(3, 6, Some("m"), false, false, false, "linux"))),
        report("python3.6", ProbeOutcome::Metadata(raw(3, 6, Some("m"), false, false, false, "linux"))),
    ];
    let records = PythonInterpreter::find_all(&reports, &linux_host()).unwrap();
    assert_eq!(records.len(), 2);
    assert_eq!(records[0], records[1]);
}

#[test]
fn discovery_error_message_names_the_candidate() {
    let e = DiscoveryError {
        executable: "python3.5".to_string(),
        kind: ErrorKind::ParseFailure,
    };
    assert_eq!(
        e.message(),
        "probing the python interpreter python3.5 failed: the interpreter metadata did not parse"
    );
}

#[test]
fn platform_mismatch_message_names_both_sides() {
    let kind = ErrorKind::PlatformMismatch {
        platform: "darwin".to_string(),
        host: "windows".to_string(),
    };
    assert_eq!(
        kind.message(),
        "sys.platform in python, darwin, and the host os in rust, windows, don't match"
    );
}
