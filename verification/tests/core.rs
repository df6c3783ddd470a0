use devbridge::config::{default_print_timeout_secs, SerialBridgeClientConfig, TlsConfig};
use devbridge::error::Error;
use devbridge::job_event::{EventEmitter, PrintJobEvent, PrintStage};
use devbridge::pairing::{ClientRegistration, PairingState};
use devbridge::sizes::format_size;
use devbridge::virtual_printer::{
    normalize_driver_name, slugify, VirtualPrinter, DEFAULT_WINDOWS_DRIVER, MAX_DRIVER_NAME_LEN,
};

#[test]
fn test_pairing_state_display() {
    assert_eq!(PairingState::Pending.to_string(), "pending");
    assert_eq!(PairingState::Approved.to_string(), "approved");
    assert_eq!(PairingState::Rejected.to_string(), "rejected");
}

#[test]
fn test_pairing_state_from_str_lossy() {
    assert_eq!(
        PairingState::from_str_lossy("approved"),
        PairingState::Approved
    );
    assert_eq!(
        PairingState::from_str_lossy("APPROVED"),
        PairingState::Approved
    );
    assert_eq!(
        PairingState::from_str_lossy("rejected"),
        PairingState::Rejected
    );
    assert_eq!(
        PairingState::from_str_lossy("pending"),
        PairingState::Pending
    );
    assert_eq!(
        PairingState::from_str_lossy("unknown"),
        PairingState::Pending
    );
}

fn reg_with_driver(driver: Option<&str>) -> ClientRegistration {
    ClientRegistration {
        machine_id: "pjsnvs".into(),
        hostname: "PJSNVS".into(),
        printer_names: vec!["TSC ML241P".into()],
        client_version: "0.9.0".into(),
        last_seen: 1_767_225_600,
        is_online: true,
        pairing_state: PairingState::Pending,
        virtual_printer_name: Some("spisska stitky".into()),
        virtual_printer_driver: driver.map(String::from),
    }
}

#[test]
fn test_takes_default_queue_only_without_driver_override() {
    // Normal store clients keep serving the default queue ...
    assert!(reg_with_driver(None).takes_default_queue());
    assert!(reg_with_driver(Some("")).takes_default_queue());
    assert!(reg_with_driver(Some("  ")).takes_default_queue());
    // ... a vendor-driver (RAW label) client never does.
    assert!(!reg_with_driver(Some("TSC ML241P")).takes_default_queue());
}

#[test]
fn test_error_display() {
    let cases: Vec<(Error, &str)> = vec![
        (Error::Config("bad toml".into()), "config error:"),
        (
            Error::Io(std::io::Error::new(std::io::ErrorKind::NotFound, "gone")),
            "io error:",
        ),
        (Error::Database("connection lost".into()), "database error:"),
        (Error::Grpc("timeout".into()), "grpc error:"),
        (Error::Ipp("bad request".into()), "ipp error:"),
        (Error::Print("paper jam".into()), "print error:"),
        (Error::Ipc("pipe broken".into()), "ipc error:"),
    ];

    for (error, expected_prefix) in cases {
        let display = error.to_string();
        assert!(
            display.contains(expected_prefix),
            "Expected '{}' to contain '{}'",
            display,
            expected_prefix
        );
    }
}

#[test]
fn error_messages_carry_their_detail() {
    assert_eq!(Error::Config("bad toml".into()).to_string(), "config error: bad toml");
    assert_eq!(Error::Ipc("pipe broken".into()).to_string(), "ipc error: pipe broken");
    let io: Error = std::io::Error::new(std::io::ErrorKind::NotFound, "gone").into();
    assert_eq!(io.to_string(), "io error: gone");
}

#[test]
fn format_size_zero_bytes() {
    assert_eq!(format_size(0), "0B");
}

#[test]
fn format_size_small_bytes() {
    assert_eq!(format_size(500), "500B");
}

#[test]
fn format_size_boundary_1024_is_kb() {
    assert_eq!(format_size(1024), "1.0KB");
}

#[test]
fn format_size_typical_kb() {
    assert_eq!(format_size(2048), "2.0KB");
}

#[test]
fn format_size_boundary_1mb_is_mb() {
    assert_eq!(format_size(1024 * 1024), "1.0MB");
}

#[test]
fn format_size_3000_bytes_is_kb() {
    assert_eq!(format_size(3000), "2.9KB");
}

#[test]
fn format_size_1025_is_kb_not_mb() {
    assert_eq!(format_size(1025), "1.0KB");
}

#[test]
fn format_size_large_mb() {
    assert_eq!(format_size(10 * 1024 * 1024), "10.0MB");
}

/// The integer computation gives the digits `{:.1}` gives for the `f64`
/// quotient, ties and values past 2^53 included.
#[test]
fn format_size_matches_float_formatting() {
    let mut samples: Vec<u64> = vec![1023, 1024, 1280, 1331, 1433, 1536, 3000, 10_000, 1_048_575];
    samples.extend([1_048_576, 1_153_434, 1_310_720, 2_621_440, 123_456_789, 1 << 40]);
    samples.extend([(1u64 << 53) - 1, 1 << 53, (1 << 53) + 1, (1 << 53) + 3, (1 << 60) + 12345]);
    samples.extend([u64::MAX, u64::MAX - 1, u64::MAX / 3, 0x8000_0000_0000_0400]);
    for k in 0..4000u64 {
        samples.push(1024 + k * 97);
        samples.push(1_048_576 + k * 52_429);
        samples.push(k.wrapping_mul(0x9E37_79B9_7F4A_7C15));
    }
    for b in samples {
        let expected = if b < 1024 {
            format!("{}B", b)
        } else if b < 1024 * 1024 {
            format!("{:.1}KB", b as f64 / 1024.0)
        } else {
            format!("{:.1}MB", b as f64 / (1024.0 * 1024.0))
        };
        assert_eq!(format_size(b), expected, "bytes = {b}");
    }
}

#[test]
fn test_normalize_driver_name_absent_or_blank_is_no_override() {
    assert_eq!(normalize_driver_name(None), Ok(None));
    assert_eq!(normalize_driver_name(Some("")), Ok(None));
    assert_eq!(normalize_driver_name(Some("   ")), Ok(None));
}

#[test]
fn test_normalize_driver_name_trims_valid_name() {
    assert_eq!(
        normalize_driver_name(Some("  TSC ML241P ")),
        Ok(Some("TSC ML241P".to_string()))
    );
    assert_eq!(
        normalize_driver_name(Some("Generic / Text Only")),
        Ok(Some("Generic / Text Only".to_string()))
    );
}

#[test]
fn test_normalize_driver_name_rejects_quote_backslash_control() {
    for bad in ["TSC\" /m \"x", "a\\b", "line\nbreak", "tab\there"] {
        let err = normalize_driver_name(Some(bad)).expect_err(bad);
        assert!(err.contains("forbidden character"), "{bad}: {err}");
    }
}

#[test]
fn test_normalize_driver_name_length_boundary() {
    let max = "a".repeat(MAX_DRIVER_NAME_LEN);
    assert_eq!(normalize_driver_name(Some(&max)), Ok(Some(max.clone())));
    let over = "a".repeat(MAX_DRIVER_NAME_LEN + 1);
    let err = normalize_driver_name(Some(&over)).unwrap_err();
    assert!(err.contains("longer than"), "{err}");
}

#[test]
fn forbidden_characters_are_named_as_debug_shows_them() {
    for bad in ['"', '\\', '\n', '\t', '\r', '\0', '\u{1b}', '\u{7f}', '\u{9f}'] {
        let name = format!("a{bad}b");
        let err = normalize_driver_name(Some(&name)).unwrap_err();
        assert_eq!(
            err,
            format!(
                "driver name contains a forbidden character {bad:?} (no quotes, backslashes or control characters)"
            )
        );
    }
    assert_eq!(
        normalize_driver_name(Some(&"a".repeat(201))).unwrap_err(),
        "driver name is longer than 200 characters"
    );
}

#[test]
fn test_slugify_strips_consecutive_separators() {
    assert_eq!(slugify("Hello  World"), "hello-world");
    assert_eq!(slugify("a--b"), "a-b");
    assert_eq!(slugify("  leading"), "leading");
    assert_eq!(slugify("trailing  "), "trailing");
}

#[test]
fn slugify_keeps_unicode_letters_and_digits() {
    assert_eq!(slugify("Tlačiareň č.2 / Sklad"), "tlačiareň-č-2-sklad");
    assert_eq!(slugify("---"), "");
}

#[test]
fn effective_driver_defaults_to_the_ipp_class_driver() {
    let mut vp = VirtualPrinter {
        id: "vp-002".into(),
        display_name: "Unpaired".into(),
        ipp_name: "unpaired".into(),
        paired_client_id: None,
        driver: None,
        created_at: 0,
        updated_at: 0,
    };
    assert_eq!(vp.effective_driver(), DEFAULT_WINDOWS_DRIVER);
    assert_eq!(vp.effective_driver(), "Microsoft IPP Class Driver");
    vp.driver = Some("TSC ML241P".into());
    assert_eq!(vp.effective_driver(), "TSC ML241P");
}

#[test]
fn test_print_job_event_fail_constructor() {
    let event = PrintJobEvent::fail("job-456", PrintStage::Sending, "connection refused");

    assert_eq!(event.job_id, "job-456");
    assert_eq!(event.stage, PrintStage::Sending);
    assert!(!event.success);
    assert_eq!(event.detail, "connection refused");
}

#[test]
fn test_print_job_event_ok_constructor() {
    let before = chrono::Utc::now().timestamp();
    let event = PrintJobEvent::ok("job-123", PrintStage::Received, "IPP job received");
    let after = chrono::Utc::now().timestamp();

    assert_eq!(event.job_id, "job-123");
    assert_eq!(event.stage, PrintStage::Received);
    assert!(event.success);
    assert_eq!(event.detail, "IPP job received");
    assert!(event.timestamp >= before && event.timestamp <= after);
    assert!(event.requesting_user.is_none());
}

#[test]
fn emitter_keeps_events_in_order_and_finds_the_last_verification() {
    let mut ev = EventEmitter::new();
    ev.emit_ok("j", PrintStage::Sending, "a");
    ev.emit_verified("j", "ipp_job_state", "first");
    ev.emit_unverified("j", "bad", "eventid_307", "second");
    ev.emit_fail("j", PrintStage::Failed, "c");
    assert_eq!(ev.last_verification(), ("eventid_307".to_string(), "second".to_string()));
    let all = ev.drain();
    assert_eq!(all.len(), 4);
    assert_eq!(all[0].detail, "a");
    assert_eq!(all[1].stage, PrintStage::Verified);
    assert_eq!(all[2].detail, "bad");
    assert!(ev.drain().is_empty());
    assert_eq!(ev.last_verification(), (String::new(), String::new()));
}

#[test]
fn config_defaults() {
    assert_eq!(default_print_timeout_secs(), 1800);
    let tls = TlsConfig::default();
    assert!(tls.cert_file.is_empty() && tls.key_file.is_empty() && tls.ca_file.is_empty());
    let sb = SerialBridgeClientConfig::default();
    assert!(!sb.enabled);
}

#[test]
fn slugs_hold_only_alphanumerics_and_single_inner_dashes() {
    for name in ["Store A Printer", "  --x__y--  ", "Tlačiareň č.2 / Sklad", "a", "!!!", "E2E Raw #2"] {
        let s = slugify(name);
        assert!(!s.starts_with('-') && !s.ends_with('-'), "{s}");
        assert!(!s.contains("--"), "{s}");
        assert!(s.chars().all(|c| c == '-' || c.is_alphanumeric()), "{s}");
    }
    assert_eq!(slugify("  --x__y--  "), "x-y");
    assert_eq!(slugify("E2E Raw #2"), "e2e-raw-2");
}

#[test]
fn pairing_state_name_reads_back() {
    for p in [PairingState::Pending, PairingState::Approved, PairingState::Rejected] {
        assert_eq!(PairingState::from_str_lossy(&p.to_string()), p);
    }
    assert_eq!(PairingState::from_str_lossy("Rejected"), PairingState::Rejected);
}

#[test]
fn slugs_of_ascii_names_are_stable() {
    for name in ["Store A Printer", "  --x__y--  ", "E2E Raw #2", "ABC-def 123", "", "-"] {
        let s = slugify(name);
        assert!(s.chars().all(|c| c == '-' || c.is_ascii_lowercase() || c.is_ascii_digit()), "{s}");
        assert_eq!(slugify(&s), s);
    }
}

#[test]
fn pairing_state_names_read_back_in_any_case() {
    for p in [PairingState::Pending, PairingState::Approved, PairingState::Rejected] {
        assert_eq!(PairingState::from_str_lossy(&p.to_string().to_uppercase()), p);
    }
    assert_eq!(PairingState::from_str_lossy("ApProVed"), PairingState::Approved);
    assert_eq!(PairingState::from_str_lossy("unknown"), PairingState::Pending);
}

#[test]
fn white_space_and_control_classes_match_std() {
    for u in (0u32..0x3100).chain([0xFEFF, 0x1_0000, 0x10_FFFF]) {
        let Some(c) = char::from_u32(u) else { continue };
        let s = c.to_string();
        assert_eq!(devbridge::text::trim_str(&s).is_empty(), c.is_whitespace(), "U+{u:04X}");
        if u < 0x300 {
            let name = format!("a{c}b");
            let refused = normalize_driver_name(Some(&name)).is_err();
            assert_eq!(refused, c.is_control() || c == '"' || c == '\\', "U+{u:04X}");
        }
    }
}
