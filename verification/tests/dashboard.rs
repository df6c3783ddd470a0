use devbridge::config::{ClientConfig, JobsConfig, SerialBridgeClientConfig, TlsConfig};
use devbridge::dashboard::{
    apply_vp_update, approval_printer_command, client_lookup, copy_failed, job_status_name,
    mark_target, new_virtual_printer, parse_limit, plan_approval, rename_printer_script,
    reprint_copy_path, reprint_metadata, reprint_original, reprint_spool, select_jobs,
    server_printers, target_name, Approval, StatusIdentity, REPRINT_WINDOW_SECS,
};
use devbridge::job::{JobMetadata, JobState};
use devbridge::pairing::{ClientRegistration, PairingState};
use devbridge::printer::PrinterInfo;
use devbridge::virtual_printer::VirtualPrinter;

const NOW: i64 = 1_767_225_600; // 2026-01-01T00:00:00Z

fn job(id: &str, user: Option<&str>, created_at: i64) -> JobMetadata {
    JobMetadata {
        job_id: id.to_string(),
        document_name: "receipt.pdf".to_string(),
        target_printer: "EPSON L3270".to_string(),
        target_client_id: Some("store-01".to_string()),
        copies: 2,
        paper_size: "A4".to_string(),
        duplex: false,
        color: true,
        payload_size: 512,
        payload_sha256: "deadbeef".to_string(),
        state: JobState::Completed,
        retry_count: 3,
        error_detail: "paper jam".to_string(),
        requesting_user: user.map(|u| u.to_string()),
        created_at,
        updated_at: created_at,
    }
}

fn client(state: PairingState, vp_name: Option<&str>, driver: Option<&str>) -> ClientRegistration {
    ClientRegistration {
        machine_id: "approve-test".to_string(),
        hostname: "host-approve".to_string(),
        printer_names: vec!["Printer1".to_string()],
        client_version: "0.1.0".to_string(),
        last_seen: NOW,
        is_online: true,
        pairing_state: state,
        virtual_printer_name: vp_name.map(|n| n.to_string()),
        virtual_printer_driver: driver.map(|d| d.to_string()),
    }
}

#[test]
fn reprint_within_window_keeps_the_original() {
    let r = reprint_original(Some(Ok(Some(job("reprint-1", None, NOW - 3600)))), NOW).unwrap();
    assert_eq!(r.job_id, "reprint-1");
    // Exactly 48 hours old is still inside the window.
    assert!(reprint_original(Some(Ok(Some(job("edge", None, NOW - REPRINT_WINDOW_SECS)))), NOW).is_ok());
}

#[test]
fn reprint_of_an_expired_job_is_422() {
    let err = reprint_original(Some(Ok(Some(job("old", None, NOW - 49 * 3600)))), NOW).unwrap_err();
    assert_eq!(err.status, 422);
    assert_eq!(
        err.message,
        "This job is too old to reprint (49 hours, limit is 48). The print file has been cleaned up."
    );
    let err = reprint_original(Some(Ok(Some(job("old", None, NOW - REPRINT_WINDOW_SECS - 1)))), NOW)
        .unwrap_err();
    assert_eq!(err.status, 422);
    assert!(err.message.contains("(48 hours, limit is 48)"), "{}", err.message);
}

#[test]
fn reprint_of_an_unknown_job_is_404_and_queue_errors_are_500() {
    let err = reprint_original(Some(Ok(None)), NOW).unwrap_err();
    assert_eq!((err.status, err.message.as_str()), (404, "job not found"));
    let err = reprint_original(Some(Err("disk I/O error".to_string())), NOW).unwrap_err();
    assert_eq!((err.status, err.message.as_str()), (500, "disk I/O error"));
    let err = reprint_original(None, NOW).unwrap_err();
    assert_eq!((err.status, err.message.as_str()), (500, "no queue"));
}

#[test]
fn reprint_without_a_spool_file_is_410() {
    let err = reprint_spool(Ok(None), false).unwrap_err();
    assert_eq!(err.status, 410);
    assert!(err.message.starts_with("Print file has been cleaned up"));
    let err = reprint_spool(Ok(Some("/nonexistent/path/fake.pdf".to_string())), false).unwrap_err();
    assert_eq!(err.status, 410);
    assert_eq!(
        err.message,
        "Print file was deleted from disk. Re-send the print from the original application."
    );
    assert_eq!(reprint_spool(Ok(Some("/spool/a.pdf".to_string())), true).unwrap(), "/spool/a.pdf");
    assert_eq!(reprint_spool(Err("locked".to_string()), true).unwrap_err().status, 500);
}

#[test]
fn reprinted_job_is_a_fresh_copy() {
    let original = job("reprint-1", Some("alice"), NOW - 60);
    let r = reprint_metadata(&original, "new-id".to_string(), NOW);
    assert_eq!(r.job_id, "new-id");
    assert_eq!(r.document_name, "receipt.pdf");
    assert_eq!(r.target_printer, "EPSON L3270");
    assert_eq!(r.target_client_id.as_deref(), Some("store-01"));
    assert_eq!(r.copies, 2);
    assert_eq!(r.paper_size, "A4");
    assert!(!r.duplex && r.color);
    assert_eq!(r.payload_size, 512);
    assert_eq!(r.payload_sha256, "deadbeef");
    assert_eq!(r.state, JobState::Queued);
    assert_eq!(r.retry_count, 0);
    assert_eq!(r.error_detail, "");
    assert_eq!(r.requesting_user.as_deref(), Some("alice"));
    assert_eq!((r.created_at, r.updated_at), (NOW, NOW));
    assert_eq!(reprint_copy_path("/spool/a.pdf", "new-id"), "/spool/a.pdf.reprint-new-id");
    let e = copy_failed("No such file or directory (os error 2)");
    assert_eq!(e.status, 500);
    assert_eq!(e.message, "failed to copy spool file: No such file or directory (os error 2)");
}

#[test]
fn client_lookup_maps_each_outcome() {
    let err = client_lookup(Some(Ok(None))).unwrap_err();
    assert_eq!((err.status, err.message.as_str()), (404, "client not found"));
    let err = client_lookup(Some(Err("sqlite busy".to_string()))).unwrap_err();
    assert_eq!((err.status, err.message.as_str()), (500, "database error"));
    let err = client_lookup(None).unwrap_err();
    assert_eq!((err.status, err.message.as_str()), (500, "no queue available"));
    let c = client_lookup(Some(Ok(Some(client(PairingState::Pending, None, None))))).unwrap();
    assert_eq!(c.machine_id, "approve-test");
}

#[test]
fn approving_creates_the_requested_virtual_printer() {
    let c = client(PairingState::Pending, Some("Store A Printer"), Some("TSC ML241P"));
    match plan_approval(&c, "approve-test", "vp-1".to_string(), NOW) {
        Approval::Approve(Some(vp)) => {
            assert_eq!(vp.id, "vp-1");
            assert_eq!(vp.display_name, "Store A Printer");
            assert_eq!(vp.ipp_name, "store-a-printer");
            assert_eq!(vp.paired_client_id.as_deref(), Some("approve-test"));
            assert_eq!(vp.driver.as_deref(), Some("TSC ML241P"));
            assert_eq!((vp.created_at, vp.updated_at), (NOW, NOW));
        }
        other => panic!("unexpected plan {other:?}"),
    }
    let c = client(PairingState::Rejected, None, None);
    assert!(matches!(plan_approval(&c, "x", "vp".to_string(), NOW), Approval::Approve(None)));
    let c = client(PairingState::Approved, Some("Store A Printer"), None);
    assert!(matches!(plan_approval(&c, "x", "vp".to_string(), NOW), Approval::AlreadyApproved));
    assert_eq!(
        approval_printer_command("Store A"),
        "Add-Printer -Name 'Store A' -DriverName 'Generic / Text Only' -PortName 'NUL'"
    );
}

fn vp(name: &str) -> VirtualPrinter {
    VirtualPrinter {
        id: "vp-9".to_string(),
        display_name: name.to_string(),
        ipp_name: "store-a".to_string(),
        paired_client_id: Some("c1".to_string()),
        driver: None,
        created_at: NOW - 10,
        updated_at: NOW - 5,
    }
}

#[test]
fn creating_a_virtual_printer_trims_and_slugs_the_name() {
    let v = new_virtual_printer("  Store A  ", "vp-1".to_string(), NOW).unwrap();
    assert_eq!(v.display_name, "Store A");
    assert_eq!(v.ipp_name, "store-a");
    assert!(v.paired_client_id.is_none() && v.driver.is_none());
    assert_eq!(v.id, "vp-1");
    assert!(new_virtual_printer("", "vp".to_string(), NOW).is_none());
    assert!(new_virtual_printer(" \t ", "vp".to_string(), NOW).is_none());
}

#[test]
fn renaming_a_virtual_printer_reslugs_it() {
    let mut v = vp("Store A");
    assert!(apply_vp_update(&mut v, Some("E2E Renamed Printer".to_string()), None));
    assert_eq!(v.display_name, "E2E Renamed Printer");
    assert_eq!(v.ipp_name, "e2e-renamed-printer");
    assert_eq!(v.paired_client_id.as_deref(), Some("c1"));
    // The same name again is no rename.
    let mut v = vp("Store A");
    assert!(!apply_vp_update(&mut v, Some("Store A".to_string()), Some(None)));
    assert_eq!(v.ipp_name, "store-a");
    assert!(v.paired_client_id.is_none());
    let mut v = vp("Store A");
    assert!(!apply_vp_update(&mut v, None, Some(Some("c2".to_string()))));
    assert_eq!(v.paired_client_id.as_deref(), Some("c2"));
    assert_eq!(
        rename_printer_script("Old", "New"),
        "$old = Get-Printer -Name 'Old' -ErrorAction SilentlyContinue; if ($old) { Remove-Printer -Name 'Old' }; $port = 'http://127.0.0.1:631/ipp/print'; rundll32.exe printui.dll,PrintUIEntry /if /b \"New\" /r \"$port\" /m \"Microsoft IPP Class Driver\" /q"
    );
}

#[test]
fn job_listing_filters_by_user_and_limits() {
    let jobs = vec![
        job("job-alice-1", Some("alice"), NOW),
        job("job-bob-1", Some("bob"), NOW),
        job("job-anon", None, NOW),
        job("job-alice-2", Some("alice"), NOW),
    ];
    assert_eq!(select_jobs(&jobs, Some("alice"), 100), vec![0, 3]);
    assert_eq!(select_jobs(&jobs, None, 100), vec![0, 1, 2, 3]);
    assert_eq!(select_jobs(&jobs, Some("nobody"), 100), Vec::<usize>::new());
    assert_eq!(select_jobs(&jobs, None, 2), vec![0, 1]);
    assert_eq!(select_jobs(&jobs, Some("alice"), 1), vec![0]);
    assert_eq!(select_jobs(&jobs, None, 0), Vec::<usize>::new());
}

#[test]
fn job_listing_limit_defaults_to_100() {
    assert_eq!(parse_limit(None), 100);
    assert_eq!(parse_limit(Some("5")), 5);
    assert_eq!(parse_limit(Some("+7")), 7);
    assert_eq!(parse_limit(Some("-1")), 100);
    assert_eq!(parse_limit(Some("ten")), 100);
    assert_eq!(parse_limit(Some("")), 100);
    assert_eq!(parse_limit(Some("99999999999999999999999")), 100);
}

#[test]
fn job_states_are_listed_in_lower_case() {
    assert_eq!(job_status_name(JobState::Queued), "queued");
    assert_eq!(job_status_name(JobState::Downloading), "downloading");
    assert_eq!(job_status_name(JobState::Printing), "printing");
    assert_eq!(job_status_name(JobState::Completed), "completed");
    assert_eq!(job_status_name(JobState::Failed), "failed");
    assert_eq!(job_status_name(JobState::Cancelled), "cancelled");
}

#[test]
fn server_lists_its_target_printer() {
    assert!(server_printers("").is_empty());
    let p = server_printers("TestPrinter");
    assert_eq!(p.len(), 1);
    assert_eq!(p[0].name, "TestPrinter");
    assert_eq!(p[0].driver, "-");
    assert_eq!(p[0].status, "unknown");
    assert_eq!(p[0].jobs, 0);
    assert!(p[0].is_target);
}

#[test]
fn client_marks_its_target_printer() {
    let printers = vec![
        PrinterInfo { name: "A".to_string(), driver: "d".to_string(), status: "idle".to_string(), jobs: 1, is_target: true },
        PrinterInfo { name: "B".to_string(), driver: "e".to_string(), status: "busy".to_string(), jobs: 2, is_target: false },
    ];
    let marked = mark_target(&printers, "B");
    assert_eq!(marked.len(), 2);
    assert!(!marked[0].is_target && marked[1].is_target);
    assert_eq!(marked[1].name, "B");
    assert_eq!(marked[1].status, "busy");
    assert_eq!(marked[1].jobs, 2);
}

#[test]
fn target_printer_name_is_trimmed_and_required() {
    assert_eq!(target_name("  Canon MG3600 ").as_deref(), Some("Canon MG3600"));
    assert_eq!(target_name("   "), None);
    assert_eq!(target_name(""), None);
}

#[test]
fn status_identity_of_a_client() {
    let config = ClientConfig {
        server_address: "10.77.8.200:50051".to_string(),
        target_printer: "Canon MG3600".to_string(),
        dashboard_port: 9120,
        reconnect_interval_secs: 5,
        max_reconnect_interval_secs: 60,
        client_id: Some("store-01".to_string()),
        print_backend: "windows_spooler".to_string(),
        printer_address: Some("10.78.5.9:9100".to_string()),
        ghostscript_device: "ppmraw".to_string(),
        ghostscript_resolution: 600,
        printer_tls: false,
        printer_display_name: Some("Canon MG3600".to_string()),
        print_proxy_url: None,
        virtual_printer_name: None,
        tls: TlsConfig {
            cert_file: "client.crt".to_string(),
            key_file: "client.key".to_string(),
            ca_file: "ca.crt".to_string(),
        },
        serial_bridge: SerialBridgeClientConfig::default(),
    };
    let jobs = JobsConfig {
        max_retries: 3,
        retry_delay_secs: 5,
        job_expiry_hours: 48,
        max_payload_size_mb: 50,
        print_timeout_secs: 900,
    };
    let id = StatusIdentity::server().with_client_config(&config).with_jobs_config(&jobs);
    assert_eq!(id.client_id.as_deref(), Some("store-01"));
    assert_eq!(id.printer_display_name.as_deref(), Some("Canon MG3600"));
    assert_eq!(id.printer_address.as_deref(), Some("10.78.5.9:9100"));
    assert_eq!(id.print_backend.as_deref(), Some("windows_spooler"));
    assert_eq!(id.server_address.as_deref(), Some("10.77.8.200:50051"));
    assert_eq!(id.print_timeout_secs, Some(900));
    let server = StatusIdentity::server();
    assert!(server.client_id.is_none() && server.print_backend.is_none());
    assert!(server.server_address.is_none() && server.print_timeout_secs.is_none());
}

#[test]
fn approval_applies_the_normalised_driver_override() {
    let plan = |driver: Option<&str>| match plan_approval(
        &client(PairingState::Pending, Some("Labels"), driver),
        "c1",
        "vp".to_string(),
        NOW,
    ) {
        Approval::Approve(Some(vp)) => vp.driver,
        other => panic!("unexpected plan {other:?}"),
    };
    assert_eq!(plan(Some("  TSC ML241P  ")).as_deref(), Some("TSC ML241P"));
    assert_eq!(plan(Some("   ")), None);
    assert_eq!(plan(None), None);
    // A name that could break out of the quoted driver argument is refused:
    // the printer keeps the default driver.
    assert_eq!(plan(Some("bad\"driver")), None);
}
