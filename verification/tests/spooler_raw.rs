use devbridge::spooler_raw::{
    check_spooled_bytes, eventid_307_evidence, eventid_307_query, expected_spooled_bytes,
    parse_eventid_307_line, parse_spooler_outcome, processor_failure_detail, spool_document_name,
    spooler_events_query, SpoolerOutcome, WindowsSpoolerRaw,
};

#[test]
fn backend_windows_spooler_raw_test_name_is_windows_spooler_raw() {
    let b = WindowsSpoolerRaw::new("TSC ML241P".into());
    assert_eq!(b.name(), "windows_spooler_raw");
    assert_eq!(b.target_printer(), "TSC ML241P");
}

#[test]
fn backend_windows_spooler_raw_test_expected_spooled_bytes_repeats_payload_per_copy() {
    assert_eq!(expected_spooled_bytes(332, 1), 332);
    assert_eq!(expected_spooled_bytes(332, 2), 664);
    assert_eq!(expected_spooled_bytes(332, 3), 996);
    // copies = 0 behaves like 1 (same as every other backend)
    assert_eq!(expected_spooled_bytes(332, 0), 332);
    assert_eq!(expected_spooled_bytes(0, 5), 0);
}

#[test]
fn backend_windows_spooler_raw_test_spool_document_name_prefers_job_name() {
    assert_eq!(spool_document_name(" label.btw ", "j-1"), "label.btw");
    assert_eq!(spool_document_name("", "j-1"), "DevBridge j-1");
    assert_eq!(spool_document_name("   ", "j-2"), "DevBridge j-2");
}

#[test]
fn test_eventid_307_query_correlates_by_job_id_printer_and_time() {
    let q = eventid_307_query("TSC ML241P", 41, "2026-09-26T12:00:00");
    assert!(q.contains("Id=307"), "{q}");
    assert!(
        q.contains("StartTime=[datetime]'2026-09-26T12:00:00'"),
        "{q}"
    );
    assert!(q.contains("Properties[0].Value -eq '41'"), "{q}");
    assert!(q.contains("Properties[4].Value -eq 'TSC ML241P'"), "{q}");
    // bytes | port, locale-independent
    assert!(
        q.contains("'{0}|{1}' -f $_.Properties[6].Value, $_.Properties[5].Value"),
        "{q}"
    );
    // never the localized message text
    assert!(!q.contains("Message"), "{q}");
}

#[test]
fn test_eventid_307_query_escapes_single_quotes_in_printer() {
    let q = eventid_307_query("O'Brien label", 7, "2026-09-26T12:00:00");
    assert!(q.contains("-eq 'O''Brien label'"), "{q}");
}

#[test]
fn test_parse_eventid_307_line() {
    assert_eq!(
        parse_eventid_307_line("664|NUL:\r\n"),
        Some((664, "NUL:".to_string()))
    );
    assert_eq!(
        parse_eventid_307_line("\r\n  1234 | USB001 \r\n"),
        Some((1234, "USB001".to_string()))
    );
    assert_eq!(parse_eventid_307_line(""), None);
    assert_eq!(parse_eventid_307_line("   \r\n"), None);
    assert_eq!(parse_eventid_307_line("garbage"), None);
    assert_eq!(parse_eventid_307_line("abc|NUL:"), None);
}

#[test]
fn backend_windows_spooler_raw_test_check_spooled_bytes() {
    assert_eq!(check_spooled_bytes(664, 664), Ok(()));
    let err = check_spooled_bytes(663, 664).unwrap_err();
    assert!(err.contains("663") && err.contains("664"), "{err}");
    assert!(check_spooled_bytes(665, 664).is_err());
}

#[test]
fn backend_windows_spooler_raw_test_eventid_307_evidence_carries_the_byte_count() {
    let e = eventid_307_evidence(41, "DevBridge-E2E-Raw", "NUL:", 664, 664);
    assert_eq!(
        e,
        "EventID 307: spooler job 41 on DevBridge-E2E-Raw via port NUL:, 664 bytes (expected 664)"
    );
}

#[test]
fn mod_test_name_is_windows_spooler_raw() {
    let b = WindowsSpoolerRaw::new("TSC ML241P".into());
    assert_eq!(b.name(), "windows_spooler_raw");
    assert_eq!(b.target_printer(), "TSC ML241P");
}

#[test]
fn mod_test_expected_spooled_bytes_repeats_payload_per_copy() {
    assert_eq!(expected_spooled_bytes(332, 1), 332);
    assert_eq!(expected_spooled_bytes(332, 2), 664);
    assert_eq!(expected_spooled_bytes(332, 3), 996);
    // copies = 0 behaves like 1 (same as every other backend)
    assert_eq!(expected_spooled_bytes(332, 0), 332);
    assert_eq!(expected_spooled_bytes(0, 5), 0);
}

#[test]
fn mod_test_spool_document_name_prefers_job_name() {
    assert_eq!(spool_document_name(" label.btw ", "j-1"), "label.btw");
    assert_eq!(spool_document_name("", "j-1"), "DevBridge j-1");
    assert_eq!(spool_document_name("   ", "j-2"), "DevBridge j-2");
}

#[test]
fn test_spooler_events_query_correlates_by_job_printer_time_and_properties() {
    let q = spooler_events_query("TSC ML241P", 41, "2026-09-26T12:00:00");
    assert!(q.contains("Id=@(307,842)"), "{q}");
    assert!(
        q.contains("StartTime=[datetime]'2026-09-26T12:00:00'"),
        "{q}"
    );
    assert!(
        q.contains("$_.Id -eq 307 -and [string]$_.Properties[0].Value -eq '41' -and [string]$_.Properties[4].Value -eq 'TSC ML241P'"),
        "{q}"
    );
    assert!(
        q.contains("'307|{0}|{1}' -f $_.Properties[6].Value, $_.Properties[5].Value"),
        "{q}"
    );
    assert!(
        q.contains("$_.Id -eq 842 -and [string]$_.Properties[0].Value -eq '41' -and [string]$_.Properties[2].Value -eq 'TSC ML241P' -and [string]$_.Properties[5].Value -ne '0'"),
        "{q}"
    );
    assert!(
        q.contains("'842|{0}|{1}' -f $_.Properties[5].Value, $_.Properties[1].Value"),
        "{q}"
    );
    // never the localized message text, and one line (passed via -Command)
    assert!(!q.contains("Message"), "{q}");
    assert!(!q.contains('\n'), "{q}");
}

#[test]
fn test_spooler_events_query_escapes_single_quotes_in_printer() {
    let q = spooler_events_query("O'Brien label", 7, "2026-09-26T12:00:00");
    assert!(q.contains("-eq 'O''Brien label'"), "{q}");
    assert!(!q.contains("-eq 'O'Brien"), "{q}");
}

#[test]
fn test_parse_spooler_outcome() {
    // exact lines seen on pz-snv (Slovak Windows) for jobs 41 and 40
    assert_eq!(
        parse_spooler_outcome("307|664|NUL:\r\n"),
        SpoolerOutcome::Printed {
            bytes: 664,
            port: "NUL:".into()
        }
    );
    assert_eq!(
        parse_spooler_outcome("842|87|MS_XPS_PROC\r\n"),
        SpoolerOutcome::ProcessorFailed {
            code: 87,
            processor: "MS_XPS_PROC".into()
        }
    );
    // delivered wins over a processor error line
    assert_eq!(
        parse_spooler_outcome("842|87|X\r\n307|10|USB001\r\n"),
        SpoolerOutcome::Printed {
            bytes: 10,
            port: "USB001".into()
        }
    );
    assert_eq!(parse_spooler_outcome(""), SpoolerOutcome::Pending);
    assert_eq!(parse_spooler_outcome("  \r\n"), SpoolerOutcome::Pending);
    assert_eq!(parse_spooler_outcome("garbage"), SpoolerOutcome::Pending);
    assert_eq!(
        parse_spooler_outcome("307|abc|NUL:"),
        SpoolerOutcome::Pending
    );
    assert_eq!(parse_spooler_outcome("999|1|x"), SpoolerOutcome::Pending);
    // the FIRST 842 is reported when several are logged
    assert_eq!(
        parse_spooler_outcome("842|87|MS_XPS_PROC\r\n842|5|winprint\r\n"),
        SpoolerOutcome::ProcessorFailed {
            code: 87,
            processor: "MS_XPS_PROC".into()
        }
    );
}

#[test]
fn test_processor_failure_detail() {
    let d = processor_failure_detail(40, "DevBridge-NullPrinter", "MS_XPS_PROC", 87);
    assert!(d.starts_with("EventID 842:"), "{d}");
    assert!(
        d.contains("MS_XPS_PROC") && d.contains("job 40") && d.contains("error 87"),
        "{d}"
    );
    assert!(d.contains("DevBridge-NullPrinter"), "{d}");
}

#[test]
fn mod_test_check_spooled_bytes() {
    assert_eq!(check_spooled_bytes(664, 664), Ok(()));
    let err = check_spooled_bytes(663, 664).unwrap_err();
    assert!(err.contains("663") && err.contains("664"), "{err}");
    assert!(check_spooled_bytes(665, 664).is_err());
}

#[test]
fn mod_test_eventid_307_evidence_carries_the_byte_count() {
    let e = eventid_307_evidence(41, "DevBridge-E2E-Raw", "NUL:", 664, 664);
    assert_eq!(
        e,
        "EventID 307: spooler job 41 on DevBridge-E2E-Raw via port NUL:, 664 bytes (expected 664)"
    );
}

// ---------------------------------------------------------------------------
// Submission and verification
// ---------------------------------------------------------------------------

use devbridge::backend::PrintJobInfo;
use devbridge::job_event::{EventEmitter, PrintStage};
use devbridge::spooler_raw::{
    fail_without_spooler, job_status_query, record_outcome, record_spooled, record_timeout, RawPoll,
    BACKEND_NAME, VERIFICATION_METHOD,
};

fn raw_job(printer: &str, copies: u32) -> PrintJobInfo {
    PrintJobInfo {
        job_id: "job-raw".into(),
        document_name: "label".into(),
        copies,
        duplex: false,
        color: false,
        printer_name: printer.into(),
        printer_display_name: None,
    }
}

#[test]
fn prepare_falls_back_to_the_target_printer_and_counts_copies() {
    let b = WindowsSpoolerRaw::new("TSC ML241P".into());
    let mut ev = EventEmitter::new();
    let s = b.prepare(&raw_job("", 0), 332, &mut ev);
    assert_eq!(s.printer, "TSC ML241P");
    assert_eq!(s.display, "TSC ML241P");
    assert_eq!(s.copies, 1);
    assert_eq!(s.expected, 332);
    let s = b.prepare(&raw_job("Zebra", 2), 332, &mut ev);
    assert_eq!(s.printer, "Zebra");
    assert_eq!(s.expected, 664);
    let e = ev.drain();
    assert_eq!(e[0].stage, PrintStage::Sending);
    assert_eq!(e[0].detail, "Windows spooler RAW → TSC ML241P (332 B × 1)");
    assert_eq!(e[1].detail, "Windows spooler RAW → Zebra (332 B × 2)");
    assert_eq!(BACKEND_NAME, "windows_spooler_raw");
}

#[test]
fn off_windows_the_job_fails_loudly() {
    let mut ev = EventEmitter::new();
    let d = fail_without_spooler(&mut ev, "job-raw", "TSC ML241P");
    assert!(d.contains("only supported on Windows"), "{d}");
    assert!(d.contains("TSC ML241P"), "{d}");
    let e = ev.drain();
    assert_eq!(e.len(), 1);
    assert_eq!(e[0].stage, PrintStage::Failed);
    assert!(!e[0].success);
}

#[test]
fn outcomes_decide_the_job() {
    let mut ev = EventEmitter::new();
    let printed = SpoolerOutcome::Printed { bytes: 664, port: "NUL:".into() };
    assert!(matches!(record_outcome(&mut ev, "j", &printed, 41, "P", "Label", 664, false), RawPoll::Done(Ok(()))));
    let e = ev.drain();
    assert_eq!(e.len(), 2);
    assert_eq!(e[0].stage, PrintStage::Verified);
    assert_eq!(e[0].verification_method, VERIFICATION_METHOD);
    assert_eq!(e[0].verification_evidence, "EventID 307: spooler job 41 on P via port NUL:, 664 bytes (expected 664)");
    assert_eq!(e[1].stage, PrintStage::Completed);
    assert_eq!(e[1].detail, "Printed RAW on Label (EventID 307, 664 B)");

    match record_outcome(&mut ev, "j", &printed, 41, "P", "Label", 665, true) {
        RawPoll::Done(Err(m)) => assert_eq!(
            m,
            "EventID 307 reports 664 bytes but 665 bytes were spooled — RAW stream altered or truncated"
        ),
        other => panic!("{other:?}"),
    }
    let refused = SpoolerOutcome::ProcessorFailed { code: 87, processor: "MS_XPS_PROC".into() };
    match record_outcome(&mut ev, "j", &refused, 40, "P", "Label", 10, false) {
        RawPoll::Done(Err(m)) => assert!(m.starts_with("EventID 842: print processor MS_XPS_PROC"), "{m}"),
        other => panic!("{other:?}"),
    }
    let e = ev.drain();
    assert_eq!(e.len(), 2);
    assert!(e.iter().all(|x| x.stage == PrintStage::Failed && x.verification_method == "eventid_307"));
    assert!(matches!(record_outcome(&mut ev, "j", &SpoolerOutcome::Pending, 1, "P", "L", 1, false), RawPoll::Wait));
    assert!(matches!(record_outcome(&mut ev, "j", &SpoolerOutcome::Pending, 1, "P", "L", 1, true), RawPoll::TimedOut));
    assert!(ev.drain().is_empty());
}

#[test]
fn timeout_reports_the_spooler_status() {
    let mut ev = EventEmitter::new();
    assert_eq!(
        record_timeout(&mut ev, "j", 41, "TSC", ""),
        "No EventID 307 within 60s for RAW job 41 on TSC (spooler status: job gone)"
    );
    assert_eq!(
        record_timeout(&mut ev, "j", 41, "TSC", "Printing"),
        "No EventID 307 within 60s for RAW job 41 on TSC (spooler status: Printing)"
    );
    let e = ev.drain();
    assert_eq!(e[0].verification_evidence, e[0].detail);
    assert_eq!(
        job_status_query("O'Brien", 7),
        "Get-PrintJob -PrinterName 'O''Brien' -ID 7 -ErrorAction SilentlyContinue | ForEach-Object { [string]$_.JobStatus }"
    );
    record_spooled(&mut ev, "j", 41, "Label", 664);
    assert_eq!(ev.drain()[0].detail, "Spooled as RAW job 41 on Label (664 B)");
}

#[test]
fn outcome_lines_tolerate_spaces_and_extra_separators() {
    assert_eq!(
        parse_spooler_outcome("  307 | 12 | port|with|bars \n"),
        SpoolerOutcome::Printed { bytes: 12, port: "port|with|bars".into() }
    );
    assert_eq!(parse_spooler_outcome("307|+5|P"), SpoolerOutcome::Printed { bytes: 5, port: "P".into() });
    assert_eq!(parse_spooler_outcome("307|18446744073709551616|P"), SpoolerOutcome::Pending);
    assert_eq!(parse_eventid_307_line("\n\n  7|p|q  "), Some((7, "p|q".to_string())));
}
