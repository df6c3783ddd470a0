use devbridge::config::{
    ClientConfig, Config, GeneralConfig, JobsConfig, SerialBridgeClientConfig, ServerConfig, TlsConfig,
};
use devbridge::job::{JobEvent, JobState};
use devbridge::tray::{config_dashboard_port, port_from_env, DEFAULT_DASHBOARD_PORT};
use devbridge::job_event::{PrintJobEvent, PrintStage};
use devbridge::tracker::{FilterState, IconState, JobDisplayStatus, JobTracker};
use devbridge::tray::{
    add_listed_jobs, build_ws_url, detect_filter_step, display_status_for, format_age,
    handle_ws_event, initial_jobs_url, manual_open_notification, menu_action, next_backoff_secs,
    tray_texts, FetchError, ListedJob, MenuAction, WsEvent, DETECT_INITIAL_BACKOFF_SECS,
    DETECT_MAX_BACKOFF_SECS,
};

#[test]
fn build_ws_url_http() {
    assert_eq!(
        build_ws_url("http://10.88.1.100:9120"),
        "ws://10.88.1.100:9120/api/ws"
    );
}

#[test]
fn build_ws_url_https_trailing_slash() {
    assert_eq!(
        build_ws_url("https://example.com/"),
        "wss://example.com/api/ws"
    );
}

#[test]
fn build_ws_url_strips_every_trailing_slash() {
    assert_eq!(build_ws_url("http://host:1//"), "ws://host:1/api/ws");
}

#[test]
fn detection_client_mode_disables_filtering() {
    let r = detect_filter_step(&Ok("client".to_string()), Some("alice".to_string()));
    assert_eq!(r, Some(FilterState::Disabled));
    let r = detect_filter_step(&Ok("client".to_string()), None);
    assert_eq!(r, Some(FilterState::Disabled));
}

#[test]
fn detection_server_mode_filters_on_the_session_user() {
    let r = detect_filter_step(&Ok("server".to_string()), Some("alice".to_string()));
    assert_eq!(r, Some(FilterState::User("alice".to_string())));
}

#[test]
fn detection_stays_pending_without_user_or_on_errors() {
    assert_eq!(detect_filter_step(&Ok("server".to_string()), None), None);
    assert_eq!(detect_filter_step(&Ok("weird".to_string()), Some("a".into())), None);
    assert_eq!(
        detect_filter_step(&Err(FetchError::Http("connection refused".into())), Some("a".into())),
        None
    );
    assert_eq!(detect_filter_step(&Err(FetchError::InvalidJson), None), None);
    assert_eq!(detect_filter_step(&Err(FetchError::MissingMode), None), None);
}

#[test]
fn detection_backoff_doubles_up_to_the_cap() {
    let mut b = DETECT_INITIAL_BACKOFF_SECS;
    let mut seen = vec![b];
    for _ in 0..7 {
        b = next_backoff_secs(b, DETECT_MAX_BACKOFF_SECS);
        seen.push(b);
    }
    assert_eq!(seen, vec![1, 2, 4, 8, 16, 30, 30, 30]);
    assert_eq!(next_backoff_secs(u64::MAX, 30), 30);
}

#[test]
fn format_age_thresholds() {
    assert_eq!(format_age(1000, 1000), "just now");
    assert_eq!(format_age(1000, 2000), "just now");
    assert_eq!(format_age(1059, 1000), "just now");
    assert_eq!(format_age(1060, 1000), "1m ago");
    assert_eq!(format_age(1000 + 3599, 1000), "59m ago");
    assert_eq!(format_age(1000 + 3600, 1000), "1h ago");
    assert_eq!(format_age(1000 + 86_399, 1000), "23h ago");
    assert_eq!(format_age(1000 + 86_400 * 3, 1000), "3d ago");
    assert_eq!(format_age(i64::MAX, i64::MIN), "213503982334601d ago");
}

fn created(id: &str, user: Option<&str>, printer: &str) -> WsEvent {
    WsEvent::Job(JobEvent::Created {
        job_id: id.into(),
        document_name: "doc.pdf".into(),
        requesting_user: user.map(String::from),
        target_printer: printer.into(),
    })
}

fn changed(id: &str, user: Option<&str>, state: JobState) -> WsEvent {
    WsEvent::Job(JobEvent::StateChanged {
        job_id: id.into(),
        new_state: state,
        requesting_user: user.map(String::from),
    })
}

#[test]
fn created_event_is_tracked_and_announced() {
    let mut t = JobTracker::new();
    t.set_filter_state(FilterState::Disabled);
    let n = handle_ws_event(&mut t, created("j1", None, "Office")).expect("announced");
    assert_eq!(n.title, "Print Job Received");
    assert_eq!(n.body, "→ Office");
    assert_eq!(t.recent_jobs.len(), 1);
    assert_eq!(t.icon_state, IconState::Yellow);
}

#[test]
fn filtered_events_change_nothing() {
    let mut t = JobTracker::new();
    t.set_filter_state(FilterState::User("alice".into()));
    assert!(handle_ws_event(&mut t, created("j1", Some("bob"), "Office")).is_none());
    assert!(t.recent_jobs.is_empty());
    assert_eq!(t.icon_state, IconState::Gray);
    let mut p = JobTracker::new();
    assert!(handle_ws_event(&mut p, created("j1", Some("bob"), "Office")).is_none());
    assert!(p.recent_jobs.is_empty());
}

#[test]
fn state_changes_announce_completion_and_failure() {
    let mut t = JobTracker::new();
    t.set_filter_state(FilterState::User("Alice".into()));
    handle_ws_event(&mut t, created("j1", Some("alice"), "Front desk")).unwrap();
    assert!(handle_ws_event(&mut t, changed("j1", Some("ALICE"), JobState::Printing)).is_none());
    let n = handle_ws_event(&mut t, changed("j1", Some("alice"), JobState::Completed)).unwrap();
    assert_eq!(n.title, "Printed ✓");
    assert_eq!(n.body, "→ Front desk");
    assert_eq!(t.icon_state, IconState::Green);
    handle_ws_event(&mut t, created("j2", Some("alice"), "Back office")).unwrap();
    let n = handle_ws_event(&mut t, changed("j2", Some("alice"), JobState::Cancelled)).unwrap();
    assert_eq!(n.title, "Print Failed");
    assert_eq!(n.body, "→ Back office");
    assert_eq!(t.icon_state, IconState::Red);
    // an unknown job is not announced
    assert!(handle_ws_event(&mut t, changed("nope", Some("alice"), JobState::Completed)).is_none());
}

#[test]
fn print_events_update_tracked_jobs_silently() {
    let mut t = JobTracker::new();
    t.set_filter_state(FilterState::Disabled);
    handle_ws_event(&mut t, created("j1", None, "P")).unwrap();
    let ev = PrintJobEvent::fail("j1", PrintStage::Failed, "paper jam");
    assert!(handle_ws_event(&mut t, WsEvent::Print(ev)).is_none());
    assert_eq!(t.recent_jobs[0].status, JobDisplayStatus::Failed);
    assert_eq!(t.icon_state, IconState::Red);
    let other = PrintJobEvent::ok("unknown", PrintStage::Completed, "done");
    assert!(handle_ws_event(&mut t, WsEvent::Print(other)).is_none());
    assert_eq!(t.recent_jobs.len(), 1);
}

#[test]
fn initial_jobs_query_depends_on_the_filter() {
    assert_eq!(initial_jobs_url("http://h:9120", &FilterState::Pending), None);
    assert_eq!(
        initial_jobs_url("http://h:9120", &FilterState::Disabled),
        Some("http://h:9120/api/jobs?limit=5".to_string())
    );
    assert_eq!(
        initial_jobs_url("http://h:9120", &FilterState::User("alice".into())),
        Some("http://h:9120/api/jobs?limit=5&requesting_user=alice".to_string())
    );
}

#[test]
fn listed_statuses_map_to_display_statuses() {
    assert_eq!(display_status_for("completed"), JobDisplayStatus::Completed);
    assert_eq!(display_status_for("failed"), JobDisplayStatus::Failed);
    assert_eq!(display_status_for("cancelled"), JobDisplayStatus::Failed);
    assert_eq!(display_status_for("queued"), JobDisplayStatus::InProgress);
    assert_eq!(display_status_for("Completed"), JobDisplayStatus::InProgress);
}

#[test]
fn listed_jobs_seed_the_tracker_newest_first() {
    let mut t = JobTracker::new();
    let listed = vec![
        ListedJob {
            id: Some("new".into()),
            printer: Some("P1".into()),
            status: Some("completed".into()),
            created_at: Some("2026-01-01T00:01:00Z".into()),
        },
        ListedJob { id: None, printer: None, status: None, created_at: None },
        ListedJob {
            id: Some("old".into()),
            printer: None,
            status: None,
            created_at: Some("not a date".into()),
        },
    ];
    add_listed_jobs(&mut t, &listed, 42);
    assert_eq!(t.recent_jobs.len(), 2);
    assert_eq!(t.recent_jobs[0].job_id, "new");
    assert_eq!(t.recent_jobs[0].target_printer, "P1");
    assert_eq!(t.recent_jobs[0].status, JobDisplayStatus::Completed);
    assert_eq!(t.recent_jobs[0].timestamp, 1_767_225_660);
    assert_eq!(t.recent_jobs[1].job_id, "old");
    assert_eq!(t.recent_jobs[1].target_printer, "unknown printer");
    assert_eq!(t.recent_jobs[1].status, JobDisplayStatus::InProgress);
    assert_eq!(t.recent_jobs[1].timestamp, 42);
}

#[test]
fn tray_texts_list_jobs_or_say_there_are_none() {
    let t = JobTracker::new();
    let texts = tray_texts(&t, 0);
    assert_eq!(texts.job_lines, vec!["(no recent jobs)".to_string()]);
    assert_eq!(texts.status_line, "○ Offline");
    assert_eq!(texts.tooltip, "DevBridge — Offline");

    let mut t = JobTracker::new();
    t.set_online(true);
    t.add_job("a".into(), "Office".into(), 1000, JobDisplayStatus::Completed);
    t.add_job("b".into(), "Lab".into(), 1000 + 7200, JobDisplayStatus::InProgress);
    let texts = tray_texts(&t, 1000 + 7200 + 30);
    assert_eq!(
        texts.job_lines,
        vec!["⏳ just now  → Lab".to_string(), "✓ 2h ago  → Office".to_string()]
    );
    assert_eq!(texts.status_line, "● Online");
    assert_eq!(texts.tooltip, "DevBridge — Online");
}

#[test]
fn menu_items_map_to_actions() {
    assert_eq!(menu_action("open_dashboard"), MenuAction::OpenDashboard);
    assert_eq!(menu_action("start_service"), MenuAction::StartService);
    assert_eq!(menu_action("stop_service"), MenuAction::StopService);
    assert_eq!(menu_action("quit"), MenuAction::Quit);
    assert_eq!(menu_action("job_0"), MenuAction::Nothing);
    let n = manual_open_notification("http://localhost:9120");
    assert_eq!(n.title, "DevBridge: Open Dashboard manually");
    assert_eq!(n.body, "Could not auto-open. URL: http://localhost:9120");
}

fn config_in_mode(mode: &str) -> Config {
    let tls = || TlsConfig { cert_file: "c".to_string(), key_file: "k".to_string(), ca_file: "a".to_string() };
    Config {
        general: GeneralConfig { mode: mode.to_string(), log_level: "info".to_string(), data_dir: "d".to_string() },
        server: ServerConfig {
            ipp_port: 631,
            grpc_port: 50051,
            dashboard_port: 9100,
            printer_name: "DevBridge".to_string(),
            spool_dir: "spool".to_string(),
            tls: tls(),
        },
        client: ClientConfig {
            server_address: "10.0.0.1:50051".to_string(),
            target_printer: "P".to_string(),
            dashboard_port: 9121,
            reconnect_interval_secs: 5,
            max_reconnect_interval_secs: 60,
            client_id: None,
            print_backend: String::new(),
            printer_address: None,
            ghostscript_device: "ppmraw".to_string(),
            ghostscript_resolution: 600,
            printer_tls: false,
            printer_display_name: None,
            print_proxy_url: None,
            virtual_printer_name: None,
            tls: tls(),
            serial_bridge: SerialBridgeClientConfig::default(),
        },
        jobs: JobsConfig {
            max_retries: 3,
            retry_delay_secs: 5,
            job_expiry_hours: 48,
            max_payload_size_mb: 50,
            print_timeout_secs: 1800,
        },
    }
}

#[test]
fn dashboard_port_comes_from_the_environment_or_the_mode() {
    assert_eq!(port_from_env("9125"), Some(9125));
    assert_eq!(port_from_env("65536"), None);
    assert_eq!(port_from_env("port"), None);
    assert_eq!(port_from_env(""), None);
    assert_eq!(config_dashboard_port(&config_in_mode("client")), 9121);
    assert_eq!(config_dashboard_port(&config_in_mode("server")), 9100);
    assert_eq!(config_dashboard_port(&config_in_mode("Client")), 9100);
    assert_eq!(DEFAULT_DASHBOARD_PORT, 9120);
}

#[test]
fn detection_waits_grow_to_the_cap_and_stay() {
    let mut wait = DETECT_INITIAL_BACKOFF_SECS;
    let mut seen = vec![wait];
    for _ in 0..6 {
        wait = next_backoff_secs(wait, DETECT_MAX_BACKOFF_SECS);
        seen.push(wait);
    }
    assert_eq!(seen, vec![1, 2, 4, 8, 16, 30, 30]);
}
