use devbridge::e2e::{
    build_ipp_get_printer_attributes, build_ipp_print_job, check_status_version,
    count_dispatch_cycles_that_sent, evidence_has_byte_count, expected_port_url, is_semver,
    parse_driver_port, parse_submit_line, raw_payload, slugify, submit_script, E2E_COPIES,
    E2E_DOCUMENT_NAME,
};
use devbridge::e2e::{check_client_survived, check_serial_bridge_status, StatusBridge};
use devbridge::e2e::{
    check_approved_vp, check_listed_vp, check_server_sha, check_submitted_length, job_history_step,
    printer_registered, raw_job_progress, LatestJob, ListedVp, PollVerdict, RetryField,
};

/// A job's stages in order, each event carrying a stage.
fn timeline(stages: &[&str]) -> Vec<Option<String>> {
    stages.iter().map(|s| Some(s.to_string())).collect()
}

#[test]
fn test_raw_payload_contains_marker_every_byte_and_print() {
    let p = raw_payload("m-1");
    let text = String::from_utf8_lossy(&p);
    assert!(text.contains("\"m-1\""));
    assert!(text.ends_with("PRINT 1,1\r\n"));
    for b in 0u8..=255 {
        assert!(p.contains(&b), "byte {b:#04x} missing");
    }
}

#[test]
fn test_slugify_matches_server() {
    assert_eq!(slugify("E2E Raw"), "e2e-raw");
    assert_eq!(slugify("spisska stitky"), "spisska-stitky");
}

#[test]
fn test_expected_port_url() {
    assert_eq!(
        expected_port_url("1631", "e2e-raw"),
        "http://127.0.0.1:1631/printers/e2e-raw"
    );
}

#[test]
fn test_parse_driver_port() {
    assert_eq!(
        parse_driver_port("Generic / Text Only|http://127.0.0.1:1631/printers/e2e-raw\r\n"),
        Some((
            "Generic / Text Only".to_string(),
            "http://127.0.0.1:1631/printers/e2e-raw".to_string()
        ))
    );
    assert_eq!(parse_driver_port(""), None);
    assert_eq!(parse_driver_port("no separator"), None);
}

#[test]
fn test_parse_submit_line() {
    assert_eq!(
        parse_submit_line("noise\r\nJOB=41 LEN=332 SHA=E94AE3\r\n"),
        Some((41, 332, "e94ae3".to_string()))
    );
    assert_eq!(parse_submit_line("JOB=x LEN=1 SHA=a"), None);
    assert_eq!(parse_submit_line("LEN=1"), None);
    assert_eq!(parse_submit_line(""), None);
}

#[test]
fn test_evidence_has_byte_count() {
    let ok = "EventID 307: spooler job 7 on DevBridge-E2E-Raw via port NUL:, 332 bytes (expected 332)";
    assert!(evidence_has_byte_count(ok, 332));
    assert!(!evidence_has_byte_count(ok, 331));
    assert!(!evidence_has_byte_count(
        "EventID 307: spooler job 7 on X via port NUL:, 331 bytes (expected 332)",
        332
    ));
    assert!(!evidence_has_byte_count("Virtual printer X", 332));
}

#[test]
fn test_submit_script_escapes_and_uses_raw() {
    let s = submit_script("O'Brien", r"C:\t\x'y.bin");
    assert!(s.contains("OpenPrinterW('O''Brien'"), "{s}");
    assert!(s.contains(r"ReadAllBytes('C:\t\x''y.bin')"), "{s}");
    assert!(s.contains("$di.pDatatype = 'RAW'"), "{s}");
    assert!(
        s.contains("\"JOB=$job LEN=$($bytes.Length) SHA=$sha\""),
        "{s}"
    );
}

#[test]
fn accepts_release_version() {
    assert!(is_semver("0.8.38"));
    assert!(is_semver("10.20.300"));
}

#[test]
fn accepts_prerelease_and_build_suffix() {
    assert!(is_semver("0.8.38-dev.1"));
    assert!(is_semver("0.8.38+abc"));
}

#[test]
fn rejects_malformed_versions() {
    assert!(!is_semver(""));
    assert!(!is_semver("0.8"));
    assert!(!is_semver("0.8.38.1"));
    assert!(!is_semver("0..38"));
    assert!(!is_semver("v0.8.38"));
    assert!(!is_semver("0.8.x"));
}

/// Normal single-page job via windows_spooler: one dispatch cycle,
/// exactly one `sending`. Must count as ONE cycle reaching the printer.
/// This is the CI-config case the old `<= 1 sending` assertion covered.
#[test]
fn single_page_single_backend_counts_one_cycle() {
    let events = timeline(&["downloading", "downloaded", "sending", "sent", "completed"]);
    assert_eq!(
        count_dispatch_cycles_that_sent(&events),
        1,
        "a normal single-page job must reach the printer in exactly one cycle"
    );
}

/// A legitimate MULTI-PAGE direct_ipp job emits one
/// `sending` PER PAGE within a SINGLE dispatch cycle (one `downloaded`,
/// one `rendering`, three `sending`). The old `<= 1 sending` assertion
/// false-positived this; the dispatch-cycle invariant must count ONE.
#[test]
fn multi_page_direct_ipp_counts_one_cycle_not_per_page() {
    let events = timeline(&[
        "downloading",
        "downloaded",
        "rendering",
        "rendered",
        "sending", // page 1
        "acknowledged",
        "completed",
        "sending", // page 2
        "acknowledged",
        "completed",
        "sending", // page 3
        "acknowledged",
        "completed",
    ]);
    assert_eq!(
        count_dispatch_cycles_that_sent(&events),
        1,
        "a multi-page direct_ipp job is ONE dispatch cycle even though it \
         emits one `sending` per page — it must not false-positive "
    );
}

/// A CORRECTLY-suppressed duplicate (in-flight guard working): the
/// server requeues, a SECOND dispatch cycle starts and emits its pre-guard
/// stages (`downloading`/`downloaded`) but the in-flight guard suppresses
/// it BEFORE the backend runs — so the second cycle has NO `sending`. The
/// invariant must count ONE (the working guard is not a violation).
#[test]
fn suppressed_duplicate_does_not_false_positive() {
    let events = timeline(&[
        // First (real) dispatch cycle — reaches the printer.
        "downloading",
        "downloaded",
        "sending",
        "sent",
        "completed",
        // Second cycle (server requeue) — suppressed before the backend;
        // emits pre-guard stages only, never `sending`.
        "downloading",
        "downloaded",
        "failed", // "duplicate print suppressed — prior task still in flight"
    ]);
    assert_eq!(
        count_dispatch_cycles_that_sent(&events),
        1,
        "a correctly-SUPPRESSED duplicate (guard working, no second \
         `sending`) must NOT be flagged as a double-dispatch"
    );
}

/// A REAL concurrent double-stream (what the guard must prevent):
/// TWO dispatch cycles BOTH reach the printer (`downloaded` … `sending`
/// twice). The invariant MUST fail this (count == 2 > 1) — proving the
/// assertion can still catch the regression it exists to catch.
#[test]
fn genuine_double_stream_is_detected() {
    let events = timeline(&[
        // First dispatch cycle — sends.
        "downloading",
        "downloaded",
        "sending",
        "sent",
        // Second concurrent dispatch cycle — ALSO sends (the bug).
        "downloading",
        "downloaded",
        "sending",
        "sent",
        "completed",
    ]);
    assert_eq!(
        count_dispatch_cycles_that_sent(&events),
        2,
        "two distinct dispatch cycles that BOTH send is the double-stream \
         footprint and MUST be counted as a violation "
    );
}

/// A genuine multi-page double-stream: TWO cycles, the first multi-page
/// (3 sends), the second also sends. Must count 2 (not 4) — proving the
/// per-cycle dedup and the cross-cycle detection compose correctly.
#[test]
fn multi_page_double_stream_counts_cycles_not_pages() {
    let events = timeline(&[
        "downloaded",
        "sending",
        "sending",
        "sending", // cycle 1: 3 pages
        "downloaded",
        "sending", // cycle 2: the duplicate
    ]);
    assert_eq!(
        count_dispatch_cycles_that_sent(&events),
        2,
        "duplicate detection must count CYCLES, not pages — a 3-page first \
         cycle plus a duplicate second cycle is 2, not 4"
    );
}

/// A completed job that never sent (e.g. all dispatches suppressed/failed
/// pre-send) yields zero cycles — the assertion `<= 1` still passes, and
/// the count is honest about what reached the printer.
#[test]
fn no_sending_counts_zero() {
    let events = timeline(&["downloading", "downloaded", "failed"]);
    assert_eq!(count_dispatch_cycles_that_sent(&events), 0);
}

/// Defensive: a `sending` with no preceding `downloaded` anchor (partial
/// server-side timeline) is still attributed to a cycle so a real
/// double-stream is never UNDER-counted.
#[test]
fn sending_before_any_downloaded_still_counts() {
    let events = timeline(&["sending", "downloaded", "sending"]);
    assert_eq!(
        count_dispatch_cycles_that_sent(&events),
        2,
        "a `sending` before any `downloaded` anchor must still start a cycle"
    );
}

#[test]
fn stages_without_a_name_do_not_count() {
    let events = vec![None, Some("sending".to_string()), None, Some("sending".to_string())];
    assert_eq!(count_dispatch_cycles_that_sent(&events), 1);
    assert_eq!(count_dispatch_cycles_that_sent(&vec![]), 0);
}

#[test]
fn check_status_version_returns_version() {
    // {"status": "running", "version": "0.8.38"}
    assert_eq!(check_status_version(Some("0.8.38"), "\"0.8.38\"", "server").unwrap(), "0.8.38");
}

#[test]
fn check_status_version_rejects_missing_field() {
    // {"status": "running"}: the field reads as JSON null.
    let err = check_status_version(None, "Null", "client").unwrap_err();
    assert!(err.contains("client /api/status 'version'"), "{err}");
}

#[test]
fn check_status_version_rejects_empty_and_non_string() {
    // {"version": ""} and {"version": 838}
    assert!(check_status_version(Some(""), "String(\"\")", "server").is_err());
    assert!(check_status_version(None, "Number(838)", "server").is_err());
}

#[test]
fn status_version_error_names_the_instance_and_value() {
    let err = check_status_version(None, "Null", "client").unwrap_err();
    assert_eq!(
        err,
        "client /api/status 'version' is not a MAJOR.MINOR.PATCH version: Null"
    );
    assert_eq!(
        check_status_version(Some("1.2.3-rc.1"), "String(\"1.2.3-rc.1\")", "client"),
        Ok("1.2.3-rc.1".to_string())
    );
}

fn bridge(enabled: Option<bool>, port: Option<&str>, baud: Option<u64>) -> StatusBridge {
    StatusBridge::Present {
        enabled,
        port: port.map(|p| p.to_string()),
        baud_rate: baud,
        shown: "{...}".to_string(),
    }
}

#[test]
fn accepts_exact_expected_bridge() {
    let s = bridge(Some(true), Some("COM250"), Some(9600));
    check_serial_bridge_status(&s, "COM250", 9600).unwrap();
}

#[test]
fn rejects_missing_key() {
    let err = check_serial_bridge_status(&StatusBridge::Missing, "COM250", 9600).unwrap_err();
    assert!(err.contains("no 'serial_bridge' key"), "{err}");
}

#[test]
fn rejects_null_bridge() {
    let err = check_serial_bridge_status(&StatusBridge::Null, "COM250", 9600).unwrap_err();
    assert!(err.contains("is null"), "{err}");
}

#[test]
fn rejects_disabled_bridge() {
    let s = bridge(Some(false), Some("COM250"), Some(9600));
    let err = check_serial_bridge_status(&s, "COM250", 9600).unwrap_err();
    assert!(err.contains("enabled must be true"), "{err}");
}

#[test]
fn rejects_wrong_port() {
    let s = bridge(Some(true), Some("COM5"), Some(9600));
    let err = check_serial_bridge_status(&s, "COM250", 9600).unwrap_err();
    assert!(err.contains("port must be"), "{err}");
}

#[test]
fn rejects_wrong_baud() {
    let s = bridge(Some(true), Some("COM250"), Some(19200));
    let err = check_serial_bridge_status(&s, "COM250", 9600).unwrap_err();
    assert!(err.contains("baud_rate must be"), "{err}");
}

#[test]
fn bridge_errors_are_exact() {
    let s = StatusBridge::Present {
        enabled: Some(true),
        port: Some("COM5".to_string()),
        baud_rate: Some(9600),
        shown: "{\"baud_rate\":9600,\"enabled\":true,\"port\":\"COM5\"}".to_string(),
    };
    assert_eq!(
        check_serial_bridge_status(&s, "COM250", 9600).unwrap_err(),
        "serial_bridge.port must be \"COM250\", got {\"baud_rate\":9600,\"enabled\":true,\"port\":\"COM5\"}"
    );
    let s = bridge(Some(true), Some("COM250"), None);
    assert_eq!(
        check_serial_bridge_status(&s, "COM250", 9600).unwrap_err(),
        "serial_bridge.baud_rate must be 9600, got {...}"
    );
    // A missing `enabled` is not `true`.
    let s = bridge(None, Some("COM250"), Some(9600));
    assert_eq!(
        check_serial_bridge_status(&s, "COM250", 9600).unwrap_err(),
        "serial_bridge.enabled must be true, got {...}"
    );
}

#[test]
fn survived_when_running_and_uptime_grew() {
    check_client_survived(Some("running"), Some(10), Some(15)).unwrap();
}

#[test]
fn survived_when_uptime_unchanged() {
    // Same second is not a restart (uptime is whole seconds).
    check_client_survived(Some("running"), Some(10), Some(10)).unwrap();
}

#[test]
fn not_survived_when_uptime_reset() {
    let err = check_client_survived(Some("running"), Some(100), Some(2)).unwrap_err();
    assert!(err.contains("went backwards"), "{err}");
    assert_eq!(
        err,
        "client uptime went backwards (100s -> 2s): the service restarted with the serial bridge enabled"
    );
}

#[test]
fn not_survived_when_not_running() {
    let err = check_client_survived(Some("stopped"), Some(10), Some(15)).unwrap_err();
    assert!(err.contains("stay 'running'"), "{err}");
    assert_eq!(
        err,
        "client status must stay 'running' with a failing serial reader, got Some(\"stopped\")"
    );
    let err = check_client_survived(None, Some(10), Some(15)).unwrap_err();
    assert!(err.ends_with("got None"), "{err}");
}

#[test]
fn not_survived_without_uptime() {
    let err = check_client_survived(Some("running"), None, Some(15)).unwrap_err();
    assert!(err.contains("no uptime_secs"), "{err}");
    let err = check_client_survived(Some("running"), Some(10), None).unwrap_err();
    assert_eq!(err, "second status read has no uptime_secs");
}

#[test]
fn semver_edge_cases() {
    assert!(is_semver("1.2.3-"));
    assert!(is_semver("1.2.3+build.5-x"));
    assert!(!is_semver("1.2.-3"));
    assert!(!is_semver("-1.2.3"));
    assert!(!is_semver("1.2.3 "));
    assert!(!is_semver("١.٢.٣"));
}

#[test]
fn submit_lines_take_the_last_value_of_each_field() {
    assert_eq!(
        parse_submit_line("JOB=1 LEN=2 SHA=Ab JOB=3"),
        Some((3, 2, "ab".to_string()))
    );
    assert_eq!(parse_submit_line("JOB=1 LEN=2 SHA=a JOB=x"), None);
    assert_eq!(parse_submit_line("JOB=4294967296 LEN=1 SHA=a"), None);
    assert_eq!(parse_submit_line("x\n  JOB=5\tLEN=+6   SHA=F  \nJOB=9 LEN=9 SHA=9"), Some((5, 6, "f".to_string())));
}

#[test]
fn suite_ipp_requests() {
    let req = build_ipp_print_job(b"%PDF");
    assert_eq!(&req[0..8], &[1, 1, 0x00, 0x02, 0, 0, 0, 1]);
    assert!(req.ends_with(b"\x03%PDF"));
    let name = E2E_DOCUMENT_NAME.as_bytes();
    assert!(req.windows(name.len()).any(|w| w == name));
    let copies = (E2E_COPIES as i32).to_be_bytes();
    assert!(req.windows(10).any(|w| w[..6] == *b"copies" && w[6..8] == [0, 4] && w[8..10] == copies[..2]));
    let g = build_ipp_get_printer_attributes();
    assert_eq!(&g[0..9], &[1, 1, 0x00, 0x0b, 0, 0, 0, 2, 0x01]);
    assert_eq!(*g.last().unwrap(), 0x03);
    let parsed = devbridge::ipp::parse_response(&g).unwrap();
    assert_eq!(parsed.request_id, 2);
    assert_eq!(parsed.get("printer-uri").unwrap().as_str(), Some("ipp://localhost:631/ipp/print"));
}

#[test]
fn raw_lane_comparisons() {
    assert_eq!(check_approved_vp(Some("Generic / Text Only"), Some("e2e-raw"), "{}"), Ok("e2e-raw".to_string()));
    assert_eq!(
        check_approved_vp(Some("TSC"), Some("e2e-raw"), "{...}").unwrap_err(),
        "approval did not create the VP with the driver override: {...}"
    );
    assert_eq!(check_approved_vp(Some("Generic / Text Only"), None, "{}").unwrap_err(), "approved VP has no ipp_name");
    assert_eq!(check_approved_vp(Some("Generic / Text Only"), Some("raw"), "{}").unwrap_err(), "unexpected ipp_name raw");
    let good = ListedVp {
        effective_driver: Some("Generic / Text Only".to_string()),
        paired_client_id: Some("e2e-raw-client".to_string()),
        shown: "{vp}".to_string(),
    };
    assert_eq!(check_listed_vp(Some(&good)), Ok(()));
    let wrong = ListedVp { paired_client_id: None, ..good.clone() };
    assert_eq!(check_listed_vp(Some(&wrong)).unwrap_err(), "RAW VP listed wrong: {vp}");
    assert_eq!(check_listed_vp(None).unwrap_err(), "RAW VP missing from /api/virtual-printers");
    let port = "http://127.0.0.1:631/printers/e2e-raw";
    assert!(printer_registered(&Some(("Generic / Text Only".to_string(), port.to_string())), port));
    assert!(!printer_registered(&Some(("Other".to_string(), port.to_string())), port));
    assert!(!printer_registered(&None, port));
    assert_eq!(check_submitted_length(300, 300), Ok(()));
    assert_eq!(check_submitted_length(10, 300).unwrap_err(), "submit wrote 10 of 300 bytes");
    assert_eq!(check_server_sha(Some("ab"), "\"ab\"", "ab"), Ok(()));
    assert_eq!(
        check_server_sha(Some("cd"), "\"cd\"", "ab").unwrap_err(),
        "server payload is NOT byte-identical: sha256 \"cd\" != submitted ab"
    );
    assert!(check_server_sha(None, "null", "ab").is_err());
    assert_eq!(raw_job_progress("completed"), Ok(PollVerdict::Done));
    assert_eq!(raw_job_progress("failed"), Err(()));
    assert_eq!(raw_job_progress("printing"), Ok(PollVerdict::Continue));
}

fn latest(status: &str, retry: RetryField) -> LatestJob {
    LatestJob {
        has_id: true,
        has_name: true,
        has_printer: true,
        has_status: true,
        retry_count: retry,
        status: Some(status.to_string()),
        shown: "{job}".to_string(),
        retry_shown: "\"0\"".to_string(),
    }
}

#[test]
fn client_job_history_poll() {
    assert_eq!(job_history_step(Some(&latest("completed", RetryField::Number))), Ok(PollVerdict::Done));
    assert_eq!(job_history_step(Some(&latest("failed", RetryField::Number))), Ok(PollVerdict::Done));
    assert_eq!(job_history_step(Some(&latest("printing", RetryField::Number))), Ok(PollVerdict::Continue));
    assert_eq!(
        job_history_step(None).unwrap_err(),
        "client /api/jobs returned empty array — no job history"
    );
    assert_eq!(
        job_history_step(Some(&latest("completed", RetryField::Missing))).unwrap_err(),
        "client job missing 'retry_count' field (#52): {job}"
    );
    assert_eq!(
        job_history_step(Some(&latest("completed", RetryField::Other))).unwrap_err(),
        "client job 'retry_count' must be a number (#52): \"0\""
    );
    let no_printer = LatestJob { has_printer: false, ..latest("completed", RetryField::Number) };
    assert_eq!(job_history_step(Some(&no_printer)).unwrap_err(), "job missing 'printer' field");
}
