//! Decisions of the tray app: service-mode detection, the WebSocket URL,
//! what each dashboard event does to the tray and which notification it
//! raises, the recent-jobs menu, and how old a job looks. The windows,
//! menus, notifications and connections are the application's.
use vstd::prelude::*;

use crate::config::Config;
use crate::job::{JobEvent, JobState};
use crate::job_event::PrintJobEvent;
use crate::text::{
    chars_of, chars_eq, dec, eq_str, parse_uint, parse_uint_exec, push_dec, push_str, replace,
    replace_exec, strip_pred, string_of, trim_end_by, trim_end_char,
};
use crate::tracker::{
    filter_passes, find_job, icon_for, printer_of, stage_status, terminal_status, with_job, with_status,
    FilterState, IconState, JobDisplayStatus, JobTracker, JobView,
};

verus! {

/// Why one `/api/status` fetch gave no mode.
#[derive(Debug)]
pub enum FetchError {
    Http(String),
    InvalidJson,
    MissingMode,
}

/// Source of the dashboard's service mode (`mode` of `/api/status`).
pub trait StatusFetcher {
    fn fetch_status(&self) -> Result<String, FetchError>;
}

/// First wait between failed detection attempts, in seconds.
pub const DETECT_INITIAL_BACKOFF_SECS: u64 = 1;
/// Longest wait between detection attempts, in seconds.
pub const DETECT_MAX_BACKOFF_SECS: u64 = 30;

/// The filter state one detection attempt settles on, if any: client mode
/// disables filtering; server mode filters on the session's user name when
/// it is known; anything else (an error, an unknown mode, a missing user
/// name) keeps the tracker pending and the caller retries.
pub open spec fn detected_filter(fetched: Result<Seq<char>, ()>, username: Option<Seq<char>>) -> Option<
    Option<Seq<char>>,
> {
    match fetched {
        Ok(mode) => if mode == "client"@ {
            Some(None)
        } else if mode == "server"@ {
            match username {
                Some(u) => Some(Some(u)),
                None => None,
            }
        } else {
            None
        },
        Err(_) => None,
    }
}

/// Decides one detection attempt (see [`detected_filter`]); `None` means retry.
pub fn detect_filter_step(fetched: &Result<String, FetchError>, username: Option<String>) -> (r: Option<FilterState>)
    ensures
        ({
            let f = match fetched {
                Ok(m) => Ok(m@),
                Err(_) => Err(()),
            };
            let u = match username {
                Some(n) => Some(n@),
                None => None,
            };
            match detected_filter(f, u) {
                None => r is None,
                Some(None) => r == Some(FilterState::Disabled),
                Some(Some(name)) => r matches Some(FilterState::User(n)) && n@ == name,
            }
        }),
{
    match fetched {
        Ok(mode) => {
            let m = chars_of(mode.as_str());
            let client = chars_of("client");
            let server = chars_of("server");
            if chars_eq(m.as_slice(), client.as_slice()) {
                Some(FilterState::Disabled)
            } else if chars_eq(m.as_slice(), server.as_slice()) {
                match username {
                    Some(u) => Some(FilterState::User(u)),
                    None => None,
                }
            } else {
                None
            }
        },
        Err(_) => None,
    }
}

/// The wait after one of `backoff_secs`: doubled, at most `max_secs`.
pub open spec fn detect_step(backoff_secs: int, max_secs: int) -> int {
    if 2 * backoff_secs > max_secs {
        max_secs
    } else {
        2 * backoff_secs
    }
}

/// The wait after `backoff_secs`: doubled, at most `max_secs`.
pub fn next_backoff_secs(backoff_secs: u64, max_secs: u64) -> (r: u64)
    ensures
        r == detect_step(backoff_secs as int, max_secs as int),
{
    if backoff_secs > max_secs / 2 {
        if 2 * (backoff_secs as u128) > max_secs as u128 {
            max_secs
        } else {
            backoff_secs * 2
        }
    } else {
        backoff_secs * 2
    }
}

/// The wait before the `n`-th retry of mode detection, the first wait
/// being `first_secs`.
pub open spec fn detect_wait(first_secs: int, max_secs: int, n: nat) -> int
    decreases n,
{
    if n == 0 {
        first_secs
    } else {
        detect_step(detect_wait(first_secs, max_secs, (n - 1) as nat), max_secs)
    }
}

/// Mode detection retries ever more slowly but never waits longer than the
/// cap: from a first wait no longer than the cap, the waits never shrink
/// and stay between the first wait and the cap.
pub proof fn law_detect_backoff_capped(first_secs: int, max_secs: int, n: nat)
    requires
        0 <= first_secs <= max_secs,
    ensures
        first_secs <= detect_wait(first_secs, max_secs, n) <= max_secs,
        n > 0 ==> detect_wait(first_secs, max_secs, (n - 1) as nat) <= detect_wait(first_secs, max_secs, n),
    decreases n,
{
    if n > 0 {
        law_detect_backoff_capped(first_secs, max_secs, (n - 1) as nat);
    }
}

/// Events received from the dashboard WebSocket.
#[derive(Debug, Clone)]
pub enum WsEvent {
    Job(JobEvent),
    Print(PrintJobEvent),
}

/// The WebSocket URL for a dashboard URL: `https://` becomes `wss://`,
/// `http://` becomes `ws://`, trailing slashes go, and `/api/ws` is appended.
pub open spec fn ws_url(dashboard_url: Seq<char>) -> Seq<char> {
    trim_end_by(
        replace(replace(dashboard_url, "https://"@, "wss://"@), "http://"@, "ws://"@),
        strip_pred(false, '/'),
    ) + "/api/ws"@
}

/// Converts an HTTP dashboard URL to its WebSocket URL.
pub fn build_ws_url(dashboard_url: &str) -> (r: String)
    ensures
        r@ == ws_url(dashboard_url@),
{
    let url = chars_of(dashboard_url);
    let https = chars_of("https://");
    let wss = chars_of("wss://");
    let http = chars_of("http://");
    let ws = chars_of("ws://");
    proof {
        reveal_strlit("https://");
        reveal_strlit("http://");
    }
    let a = replace_exec(url.as_slice(), https.as_slice(), wss.as_slice());
    let b = replace_exec(a.as_slice(), http.as_slice(), ws.as_slice());
    let c = trim_end_char(b.as_slice(), '/');
    let mut out = string_of(c.as_slice());
    push_str(&mut out, "/api/ws");
    out
}

/// How long ago `timestamp` was at `now` (seconds since the epoch), never negative.
pub open spec fn age_secs(now: i64, timestamp: i64) -> int {
    if now - timestamp < 0 {
        0
    } else {
        now - timestamp
    }
}

/// A job's age as the tray shows it.
pub open spec fn age_text(now: i64, timestamp: i64) -> Seq<char> {
    let secs = age_secs(now, timestamp);
    if secs < 60 {
        "just now"@
    } else if secs < 3600 {
        dec((secs / 60) as nat) + "m ago"@
    } else if secs < 86400 {
        dec((secs / 3600) as nat) + "h ago"@
    } else {
        dec((secs / 86400) as nat) + "d ago"@
    }
}

/// Formats the age of a job stamped `timestamp` as seen at `now`.
pub fn format_age(now: i64, timestamp: i64) -> (r: String)
    ensures
        r@ == age_text(now, timestamp),
{
    let diff: i128 = now as i128 - timestamp as i128;
    let secs: u64 = if diff < 0 { 0 } else { diff as u64 };
    let mut s = String::new();
    if secs < 60 {
        push_str(&mut s, "just now");
    } else if secs < 3600 {
        push_dec(&mut s, secs / 60);
        push_str(&mut s, "m ago");
    } else if secs < 86400 {
        push_dec(&mut s, secs / 3600);
        push_str(&mut s, "h ago");
    } else {
        push_dec(&mut s, secs / 86400);
        push_str(&mut s, "d ago");
    }
    s
}

} // verus!

verus! {

// ---------------------------------------------------------------------------
// Dashboard events
// ---------------------------------------------------------------------------

/// A desktop notification to show.
#[derive(Debug, Clone)]
pub struct Notification {
    pub title: String,
    pub body: String,
}


pub open spec fn user_view(u: Option<String>) -> Option<Seq<char>> {
    match u {
        Some(s) => Some(s@),
        None => None,
    }
}

/// The notification title of a job that reached a terminal status.
pub open spec fn terminal_title(s: JobDisplayStatus) -> Option<Seq<char>> {
    match s {
        JobDisplayStatus::Completed => Some("Printed ✓"@),
        JobDisplayStatus::Failed => Some("Print Failed"@),
        JobDisplayStatus::InProgress => None,
    }
}

/// Applies one dashboard event to the tray and returns the notification it
/// raises. A created job that passes the filter is tracked (in progress,
/// icon Yellow) and announced; a state change that passes the filter
/// updates the job, announcing completion or failure; a print-stage event
/// updates a tracked job silently (the state changes are authoritative).
/// Events the filter drops change nothing.
pub fn handle_ws_event(tracker: &mut JobTracker, event: WsEvent) -> (r: Option<Notification>)
    ensures
        final(tracker).filter() == old(tracker).filter(),
        match event {
            WsEvent::Job(JobEvent::Created { job_id, requesting_user, target_printer, .. }) => {
                if filter_passes(old(tracker).filter(), user_view(requesting_user)) {
                    &&& exists|t: i64|
                        final(tracker).jobs() == with_job(
                            old(tracker).jobs(),
                            (job_id@, target_printer@, JobDisplayStatus::InProgress, t),
                        )
                    &&& final(tracker).icon_state == IconState::Yellow
                    &&& r matches Some(n) && n.title@ == "Print Job Received"@ && n.body@ == "→ "@
                        + target_printer@
                } else {
                    &&& final(tracker).jobs() == old(tracker).jobs()
                    &&& final(tracker).icon_state == old(tracker).icon_state
                    &&& r is None
                }
            },
            WsEvent::Job(JobEvent::StateChanged { job_id, new_state, requesting_user }) => {
                let i = find_job(old(tracker).jobs(), job_id@);
                if filter_passes(old(tracker).filter(), user_view(requesting_user)) && i < old(
                    tracker,
                ).jobs().len() && terminal_status(new_state) is Some {
                    let st = terminal_status(new_state)->0;
                    &&& final(tracker).jobs() == with_status(old(tracker).jobs(), i as int, st)
                    &&& final(tracker).icon_state == icon_for(st)
                    &&& r matches Some(n) && Some(n.title@) == terminal_title(st) && n.body@ == "→ "@
                        + printer_of(old(tracker).jobs(), job_id@)
                } else {
                    &&& final(tracker).jobs() == old(tracker).jobs()
                    &&& final(tracker).icon_state == old(tracker).icon_state
                    &&& r is None
                }
            },
            WsEvent::Print(evt) => {
                let i = find_job(old(tracker).jobs(), evt.job_id@);
                &&& r is None
                &&& if i < old(tracker).jobs().len() && stage_status(evt.stage, evt.success) is Some {
                    &&& final(tracker).jobs() == with_status(
                        old(tracker).jobs(),
                        i as int,
                        stage_status(evt.stage, evt.success)->0,
                    )
                    &&& final(tracker).icon_state == icon_for(stage_status(evt.stage, evt.success)->0)
                } else {
                    &&& final(tracker).jobs() == old(tracker).jobs()
                    &&& final(tracker).icon_state == old(tracker).icon_state
                }
            },
        },
{
    match event {
        WsEvent::Job(JobEvent::Created { job_id, document_name: _, requesting_user, target_printer }) => {
            if tracker.should_process(&requesting_user) {
                let mut body = String::new();
                push_str(&mut body, "→ ");
                push_str(&mut body, target_printer.as_str());
                tracker.on_job_created(job_id, target_printer);
                Some(Notification { title: "Print Job Received".to_owned(), body })
            } else {
                None
            }
        },
        WsEvent::Job(JobEvent::StateChanged { job_id, new_state, requesting_user }) => {
            if !tracker.should_process(&requesting_user) {
                return None;
            }
            let mut body = String::new();
            push_str(&mut body, "→ ");
            let printer = tracker.printer_of_job(job_id.as_str());
            push_str(&mut body, printer.as_str());
            match tracker.on_state_changed(job_id.as_str(), new_state) {
                Some(JobDisplayStatus::Completed) => Some(Notification { title: "Printed ✓".to_owned(), body }),
                Some(JobDisplayStatus::Failed) => Some(Notification { title: "Print Failed".to_owned(), body }),
                _ => None,
            }
        },
        WsEvent::Print(evt) => {
            tracker.on_print_event(evt.job_id.as_str(), evt.stage, evt.success);
            None
        },
    }
}

// ---------------------------------------------------------------------------
// The recent-jobs menu
// ---------------------------------------------------------------------------

/// The `/api/jobs` query that seeds the menu once the filter is known:
/// this user's five most recent jobs in server mode, the five most recent
/// in client mode; none while the filter is still pending.
pub fn initial_jobs_url(dashboard_url: &str, filter: &FilterState) -> (r: Option<String>)
    ensures
        match *filter {
            FilterState::Pending => r is None,
            FilterState::Disabled => r matches Some(u) && u@ == dashboard_url@ + "/api/jobs?limit=5"@,
            FilterState::User(name) => r matches Some(u) && u@ == dashboard_url@
                + "/api/jobs?limit=5&requesting_user="@ + name@,
        },
{
    match filter {
        FilterState::Pending => None,
        FilterState::Disabled => {
            let mut s = String::new();
            push_str(&mut s, dashboard_url);
            push_str(&mut s, "/api/jobs?limit=5");
            Some(s)
        },
        FilterState::User(name) => {
            let mut s = String::new();
            push_str(&mut s, dashboard_url);
            push_str(&mut s, "/api/jobs?limit=5&requesting_user=");
            push_str(&mut s, name.as_str());
            Some(s)
        },
    }
}

/// The display status of a job listed by the dashboard API.
pub open spec fn listed_status(status: Seq<char>) -> JobDisplayStatus {
    if status == "completed"@ {
        JobDisplayStatus::Completed
    } else if status == "failed"@ || status == "cancelled"@ {
        JobDisplayStatus::Failed
    } else {
        JobDisplayStatus::InProgress
    }
}

/// `completed` is completed, `failed` and `cancelled` failed, anything else
/// in progress.
pub fn display_status_for(status: &str) -> (r: JobDisplayStatus)
    ensures
        r == listed_status(status@),
{
    let s = chars_of(status);
    if eq_str(s.as_slice(), "completed") {
        JobDisplayStatus::Completed
    } else if eq_str(s.as_slice(), "failed") || eq_str(s.as_slice(), "cancelled") {
        JobDisplayStatus::Failed
    } else {
        JobDisplayStatus::InProgress
    }
}

/// Seconds since the Unix epoch of an RFC 3339 date-time, when it parses.
pub uninterp spec fn rfc3339_seconds(s: Seq<char>) -> Option<i64>;

/// `chrono::DateTime::parse_from_rfc3339(s)` as seconds since the epoch
/// (`timestamp()`), named; `None` when it does not parse.
#[verifier::external_body]
fn parse_rfc3339(s: &str) -> (r: Option<i64>)
    ensures
        r == rfc3339_seconds(s@),
{
    match chrono::DateTime::parse_from_rfc3339(s) {
        Ok(dt) => Some(dt.timestamp()),
        Err(_) => None,
    }
}

/// A job as the dashboard's `/api/jobs` lists it; fields it lacks are `None`.
#[derive(Debug, Clone)]
pub struct ListedJob {
    pub id: Option<String>,
    pub printer: Option<String>,
    pub status: Option<String>,
    pub created_at: Option<String>,
}

pub open spec fn or_text(o: Option<String>, d: Seq<char>) -> Seq<char> {
    match o {
        Some(s) => s@,
        None => d,
    }
}

/// The jobs of `listed` (newest first) added to `jobs` oldest first, so the
/// newest ends up in front: jobs without an id are skipped; a missing
/// printer reads `unknown printer`, a missing status `queued`, and a
/// creation time that does not parse is `now`.
pub open spec fn seeded(jobs: Seq<JobView>, listed: Seq<ListedJob>, now: i64) -> Seq<JobView>
    decreases listed.len(),
{
    if listed.len() == 0 {
        jobs
    } else {
        let j = listed.last();
        let id = or_text(j.id, Seq::<char>::empty());
        let after = if id.len() == 0 {
            jobs
        } else {
            let ts = match rfc3339_seconds(or_text(j.created_at, Seq::<char>::empty())) {
                Some(t) => t,
                None => now,
            };
            with_job(
                jobs,
                (id, or_text(j.printer, "unknown printer"@), listed_status(or_text(j.status, "queued"@)), ts),
            )
        };
        seeded(after, listed.drop_last(), now)
    }
}

/// Seeds the tracker with the jobs the dashboard listed (newest first).
pub fn add_listed_jobs(tracker: &mut JobTracker, listed: &Vec<ListedJob>, now: i64)
    ensures
        final(tracker).jobs() == seeded(old(tracker).jobs(), listed@, now),
        final(tracker).icon_state == old(tracker).icon_state,
        final(tracker).filter() == old(tracker).filter(),
{
    let mut i: usize = listed.len();
    assert(listed@.take(i as int) =~= listed@);
    while i > 0
        invariant
            i <= listed@.len(),
            seeded(old(tracker).jobs(), listed@, now) == seeded(tracker.jobs(), listed@.take(i as int), now),
            tracker.icon_state == old(tracker).icon_state,
            tracker.filter() == old(tracker).filter(),
        decreases i,
    {
        let j = &listed[i - 1];
        assert(listed@.take(i as int).last() == *j);
        assert(listed@.take(i as int).drop_last() =~= listed@.take(i - 1));
        let ghost old_jobs = tracker.jobs();
        let id: String = match &j.id {
            Some(s) => s.clone(),
            None => String::new(),
        };
        if !id.as_str().is_empty() {
            let printer: String = match &j.printer {
                Some(p) => p.clone(),
                None => "unknown printer".to_owned(),
            };
            let status = match &j.status {
                Some(s) => display_status_for(s.as_str()),
                None => display_status_for("queued"),
            };
            let created: &str = match &j.created_at {
                Some(c) => c.as_str(),
                None => "",
            };
            proof {
                reveal_strlit("");
            }
            let ts = match parse_rfc3339(created) {
                Some(t) => t,
                None => now,
            };
            let ghost entry = (id@, printer@, status, ts);
            assert(id@ == or_text(j.id, Seq::<char>::empty()));
            assert(printer@ == or_text(j.printer, "unknown printer"@));
            assert(status == listed_status(or_text(j.status, "queued"@)));
            assert(created@ == or_text(j.created_at, Seq::<char>::empty()));
            tracker.add_job(id, printer, ts, status);
            assert(tracker.jobs() == with_job(old_jobs, entry));
        } else {
            assert(or_text(j.id, Seq::<char>::empty()).len() == 0);
        }
        i = i - 1;
    }
}

/// The line a recent job gets in the menu: status mark, age, printer.
pub open spec fn job_label(j: JobView, now: i64) -> Seq<char> {
    (match j.2 {
        JobDisplayStatus::Completed => "✓"@,
        JobDisplayStatus::Failed => "✗"@,
        JobDisplayStatus::InProgress => "⏳"@,
    }) + " "@ + age_text(now, j.3) + "  → "@ + j.1
}

/// The status line of the menu.
pub open spec fn status_label(icon: IconState) -> Seq<char> {
    match icon {
        IconState::Green => "● Online"@,
        IconState::Yellow => "◐ Printing..."@,
        IconState::Red => "● Error"@,
        IconState::Gray => "○ Offline"@,
    }
}

/// The tooltip of the tray icon.
pub open spec fn tooltip_text(icon: IconState) -> Seq<char> {
    match icon {
        IconState::Green => "DevBridge — Online"@,
        IconState::Yellow => "DevBridge — Printing..."@,
        IconState::Red => "DevBridge — Error"@,
        IconState::Gray => "DevBridge — Offline"@,
    }
}

/// The texts of the tray menu: one line per recent job (or the single
/// line `(no recent jobs)`), the status line and the tooltip.
#[derive(Debug, Clone)]
pub struct TrayTexts {
    pub job_lines: Vec<String>,
    pub status_line: String,
    pub tooltip: String,
}

/// The menu texts for the tracker's state at time `now`.
pub fn tray_texts(tracker: &JobTracker, now: i64) -> (r: TrayTexts)
    ensures
        tracker.jobs().len() == 0 ==> r.job_lines@.len() == 1 && r.job_lines@[0]@ == "(no recent jobs)"@,
        tracker.jobs().len() > 0 ==> r.job_lines@.len() == tracker.jobs().len() && forall|i: int|
            0 <= i < tracker.jobs().len() ==> #[trigger] r.job_lines@[i]@ == job_label(tracker.jobs()[i], now),
        r.status_line@ == status_label(tracker.icon_state),
        r.tooltip@ == tooltip_text(tracker.icon_state),
{
    let mut lines: Vec<String> = Vec::new();
    let mut i: usize = 0;
    while i < tracker.recent_jobs.len()
        invariant
            i <= tracker.recent_jobs@.len(),
            lines@.len() == i,
            forall|k: int| 0 <= k < i ==> #[trigger] lines@[k]@ == job_label(tracker.jobs()[k], now),
        decreases tracker.recent_jobs@.len() - i,
    {
        let j = &tracker.recent_jobs[i];
        assert(tracker.jobs()[i as int] == j@);
        let mut s = String::new();
        match j.status {
            JobDisplayStatus::Completed => push_str(&mut s, "✓"),
            JobDisplayStatus::Failed => push_str(&mut s, "✗"),
            JobDisplayStatus::InProgress => push_str(&mut s, "⏳"),
        }
        push_str(&mut s, " ");
        let age = format_age(now, j.timestamp);
        push_str(&mut s, age.as_str());
        push_str(&mut s, "  → ");
        push_str(&mut s, j.target_printer.as_str());
        lines.push(s);
        i = i + 1;
    }
    if lines.len() == 0 {
        lines.push("(no recent jobs)".to_owned());
    }
    let (status_line, tooltip) = match tracker.icon_state {
        IconState::Green => ("● Online", "DevBridge — Online"),
        IconState::Yellow => ("◐ Printing...", "DevBridge — Printing..."),
        IconState::Red => ("● Error", "DevBridge — Error"),
        IconState::Gray => ("○ Offline", "DevBridge — Offline"),
    };
    TrayTexts { job_lines: lines, status_line: status_line.to_owned(), tooltip: tooltip.to_owned() }
}

/// What a click on a menu item asks for.
#[derive(Debug, Clone, Copy, PartialEq, Eq, Structural)]
pub enum MenuAction {
    OpenDashboard,
    StartService,
    StopService,
    Quit,
    /// Items that do nothing (headers, job lines, the status line).
    Nothing,
}

/// The action of a menu item, by its id.
pub fn menu_action(event_id: &str) -> (r: MenuAction)
    ensures
        r == (if event_id@ == "open_dashboard"@ {
            MenuAction::OpenDashboard
        } else if event_id@ == "start_service"@ {
            MenuAction::StartService
        } else if event_id@ == "stop_service"@ {
            MenuAction::StopService
        } else if event_id@ == "quit"@ {
            MenuAction::Quit
        } else {
            MenuAction::Nothing
        }),
{
    let e = chars_of(event_id);
    if eq_str(e.as_slice(), "open_dashboard") {
        MenuAction::OpenDashboard
    } else if eq_str(e.as_slice(), "start_service") {
        MenuAction::StartService
    } else if eq_str(e.as_slice(), "stop_service") {
        MenuAction::StopService
    } else if eq_str(e.as_slice(), "quit") {
        MenuAction::Quit
    } else {
        MenuAction::Nothing
    }
}

/// The notification shown when no browser could be opened on the dashboard.
pub fn manual_open_notification(dashboard_url: &str) -> (r: Notification)
    ensures
        r.title@ == "DevBridge: Open Dashboard manually"@,
        r.body@ == "Could not auto-open. URL: "@ + dashboard_url@,
{
    let mut body = String::new();
    push_str(&mut body, "Could not auto-open. URL: ");
    push_str(&mut body, dashboard_url);
    Notification { title: "DevBridge: Open Dashboard manually".to_owned(), body }
}

} // verus!

verus! {

// ---------------------------------------------------------------------------
// Which dashboard the tray talks to
// ---------------------------------------------------------------------------

/// The dashboard port when neither the environment nor a configuration
/// file names one.
pub const DEFAULT_DASHBOARD_PORT: u16 = 9120;

/// The port that `DEVBRIDGE_DASHBOARD_PORT` names, when it is a `u16`.
pub fn port_from_env(value: &str) -> (r: Option<u16>)
    ensures
        match parse_uint(value@, u16::MAX as nat) {
            Some(p) => r == Some(p as u16),
            None => r is None,
        },
{
    let cs = chars_of(value);
    match parse_uint_exec(cs.as_slice(), u16::MAX as u64) {
        Some(p) => Some(p as u16),
        None => None,
    }
}

/// The dashboard port a configuration file gives: the client's in client
/// mode, the server's otherwise.
pub fn config_dashboard_port(config: &Config) -> (r: u16)
    ensures
        r == (if config.general.mode@ == "client"@ {
            config.client.dashboard_port
        } else {
            config.server.dashboard_port
        }),
{
    let mode = chars_of(config.general.mode.as_str());
    if eq_str(mode.as_slice(), "client") {
        config.client.dashboard_port
    } else {
        config.server.dashboard_port
    }
}

} // verus!
