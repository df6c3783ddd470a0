use devbridge::config::ClientConfig;
use devbridge::startup_validation::{
    validate_client_config, validate_client_config_against, validate_ipp_address,
    validate_local_printer_against,
};

#[test]
fn test_validate_local_printer_exact_match_passes() {
    validate_local_printer_against(
        &vec!["Canon MG3600 series Printer".to_string()],
        "Canon MG3600 series Printer",
    )
    .expect("exact match should pass");
}

#[test]
fn test_validate_local_printer_case_insensitive_match_passes() {
    validate_local_printer_against(&vec!["Canon MG3600".to_string()], "canon mg3600")
        .expect("case-insensitive match should pass");
}

#[test]
fn test_validate_local_printer_missing_lists_alternatives() {
    let err = validate_local_printer_against(
        &vec![
            "Canon MG3600 series Printer".to_string(),
            "Microsoft Print to PDF".to_string(),
            "eholla printer".to_string(),
        ],
        "Brother DCP-1610W",
    )
    .expect_err("missing printer should fail");
    let msg = err;
    assert!(msg.contains("Brother DCP-1610W"), "msg: {}", msg);
    assert!(msg.contains("Canon MG3600 series Printer"), "msg: {}", msg);
    assert!(msg.contains("Microsoft Print to PDF"), "msg: {}", msg);
    assert!(msg.contains("eholla printer"), "msg: {}", msg);
}

#[test]
fn test_validate_local_printer_empty_list_fails_with_hint() {
    let err =
        validate_local_printer_against(&vec![], "Anything").expect_err("empty list should fail");
    assert!(
        err.contains("No printers installed"),
        "msg: {}",
        err
    );
}

#[test]
fn test_validate_ipp_address_missing_returns_error() {
    let err = validate_ipp_address(None).expect_err("None should fail");
    assert!(err.contains("printer_address"));
}

#[test]
fn test_validate_ipp_address_present_passes() {
    validate_ipp_address(Some("10.78.2.9:631")).expect("valid address should pass");
}

#[test]
fn test_validate_ipp_address_empty_string_fails() {
    let err = validate_ipp_address(Some("")).expect_err("empty string should fail");
    assert!(err.contains("printer_address"));
}

fn make_config(backend: &str, target: &str, addr: Option<&str>) -> ClientConfig {
    ClientConfig {
        server_address: "127.0.0.1:50051".into(),
        target_printer: target.into(),
        dashboard_port: 9120,
        reconnect_interval_secs: 5,
        max_reconnect_interval_secs: 60,
        client_id: None,
        print_backend: backend.into(),
        printer_address: addr.map(String::from),
        ghostscript_device: "jpeg".into(),
        ghostscript_resolution: 360,
        printer_tls: false,
        printer_display_name: None,
        print_proxy_url: None,
        virtual_printer_name: None,
        tls: Default::default(),
        serial_bridge: Default::default(),
    }
}

#[test]
fn test_validate_client_config_direct_ipp_with_address_passes() {
    let cfg = make_config("direct_ipp", "ignored", Some("10.78.2.9:631"));
    validate_client_config_against(&cfg, &vec![]).expect("direct_ipp with address should pass");
}

#[test]
fn test_validate_client_config_direct_ipp_without_address_fails() {
    let cfg = make_config("direct_ipp", "ignored", None);
    validate_client_config_against(&cfg, &vec![])
        .expect_err("direct_ipp without printer_address should fail");
}

#[test]
fn test_validate_client_config_windows_spooler_uses_printer_list() {
    let cfg = make_config("windows_spooler", "Canon MG3600", None);
    validate_client_config_against(&cfg, &vec!["Canon MG3600".to_string()])
        .expect("matching printer should pass");

    let cfg_bad = make_config("windows_spooler", "NonExistent", None);
    validate_client_config_against(&cfg_bad, &vec!["Canon MG3600".to_string()])
        .expect_err("non-matching printer should fail");
}

#[test]
fn test_validate_client_config_unknown_backend_passes() {
    // Unknown backends (cups, print_proxy, etc.) are not validated here.
    let cfg = make_config("print_proxy", "ignored", None);
    validate_client_config_against(&cfg, &vec![]).expect("unknown backend should be skipped");
}

// ── The entry point that lists the installed printers itself ──────────
// These use the direct_ipp / print_proxy branches so they do not depend on
// the local printer list.

#[test]
fn test_pub_validate_client_config_direct_ipp_without_address_fails() {
    let cfg = make_config("direct_ipp", "ignored", None);
    let err = validate_client_config(&cfg).expect_err("None address should fail");
    assert!(err.contains("printer_address"));
}

#[test]
fn test_pub_validate_client_config_direct_ipp_with_address_passes() {
    let cfg = make_config("direct_ipp", "ignored", Some("10.78.2.9:631"));
    validate_client_config(&cfg).expect("direct_ipp with address should pass");
}

#[test]
fn test_pub_validate_client_config_unknown_backend_skips() {
    let cfg = make_config("print_proxy", "ignored", None);
    validate_client_config(&cfg).expect("unknown backend should be skipped");
}

#[test]
fn missing_printer_message_lists_every_alternative() {
    let err = validate_local_printer_against(
        &vec!["A".to_string(), "B b".to_string()],
        "Z",
    )
    .unwrap_err();
    assert_eq!(
        err,
        "target_printer \"Z\" not found on this machine.\n  Available printers:\n    - A\n    - B b\n  \
         Suggestion: edit C:\\ProgramData\\DevBridge\\config.toml and set target_printer to one of \
         the names above, then restart the DevBridge scheduled task."
    );
    let err = validate_local_printer_against(&vec![], "Z").unwrap_err();
    assert_eq!(
        err,
        "No printers installed on this machine. Install the printer driver before configuring \
         DevBridge (target_printer = \"Z\")"
    );
}

#[test]
fn an_empty_backend_name_means_windows_spooler() {
    let cfg = make_config("", "Canon", None);
    validate_client_config_against(&cfg, &vec!["canon".to_string()]).expect("case-insensitive match");
    assert!(validate_client_config(&cfg).is_err());
}
