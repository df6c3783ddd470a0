use devbridge::job::JobState;
use devbridge::job_event::PrintStage;
use devbridge::tracker::{FilterState, IconState, JobDisplayStatus, JobTracker};

#[test]
fn new_tracker_starts_gray() {
    let tracker = JobTracker::new();
    assert_eq!(tracker.icon_state, IconState::Gray);
    assert!(tracker.recent_jobs.is_empty());
}

#[test]
fn job_created_sets_yellow() {
    let mut tracker = JobTracker::new();
    tracker.set_online(true);
    tracker.on_job_created("job-1".into(), "pjsnvs printer".into());
    assert_eq!(tracker.icon_state, IconState::Yellow);
    assert_eq!(tracker.recent_jobs.len(), 1);
    assert_eq!(tracker.recent_jobs[0].job_id, "job-1");
    assert_eq!(tracker.recent_jobs[0].target_printer, "pjsnvs printer");
    assert_eq!(tracker.recent_jobs[0].status, JobDisplayStatus::InProgress);
}

#[test]
fn state_changed_to_completed_marks_done() {
    let mut tracker = JobTracker::new();
    tracker.on_job_created("job-1".into(), "pjsnvs printer".into());
    let result = tracker.on_state_changed("job-1", JobState::Completed);
    assert_eq!(result, Some(JobDisplayStatus::Completed));
    assert_eq!(tracker.icon_state, IconState::Green);
    assert_eq!(tracker.recent_jobs[0].status, JobDisplayStatus::Completed);
}

#[test]
fn state_changed_to_failed_marks_failed() {
    let mut tracker = JobTracker::new();
    tracker.on_job_created("job-1".into(), "pjsnvs printer".into());
    let result = tracker.on_state_changed("job-1", JobState::Failed);
    assert_eq!(result, Some(JobDisplayStatus::Failed));
    assert_eq!(tracker.icon_state, IconState::Red);
    assert_eq!(tracker.recent_jobs[0].status, JobDisplayStatus::Failed);
}

#[test]
fn state_changed_intermediate_returns_none() {
    let mut tracker = JobTracker::new();
    tracker.on_job_created("job-1".into(), "pjsnvs printer".into());
    assert_eq!(tracker.on_state_changed("job-1", JobState::Printing), None);
    assert_eq!(tracker.recent_jobs[0].status, JobDisplayStatus::InProgress);
}

/// Regression test for the bug where the tray got stuck on "printing"
/// because it ignored JobEvent::StateChanged and only watched for
/// PrintJobEvent::Completed which never reached it. This test simulates
/// the WebSocket event sequence the tray actually receives in production:
///   1. JobEvent::Created (server emits when IPP job arrives)
///   2. JobEvent::StateChanged(Printing) (server emits when client picks up)
///   3. JobEvent::StateChanged(Completed) (server emits when client finishes)
/// After step 3 the job MUST show as Completed, not stuck on InProgress.
#[test]
fn full_lifecycle_created_printing_completed() {
    let mut tracker = JobTracker::new();

    // 1. Job created on the server
    tracker.on_job_created("job-abc".into(), "pjsnvs printer".into());
    assert_eq!(tracker.recent_jobs[0].status, JobDisplayStatus::InProgress);
    assert_eq!(tracker.icon_state, IconState::Yellow);

    // 2. Job state changes to printing — still in progress
    let r1 = tracker.on_state_changed("job-abc", JobState::Printing);
    assert_eq!(r1, None);
    assert_eq!(tracker.recent_jobs[0].status, JobDisplayStatus::InProgress);

    // 3. Job state changes to completed — MUST update tracker to done.
    // The critical assertion: a tracker that ignored StateChanged events,
    // waiting for a PrintJobEvent that never comes, would stay in progress.
    let r2 = tracker.on_state_changed("job-abc", JobState::Completed);
    assert_eq!(r2, Some(JobDisplayStatus::Completed));
    assert_eq!(tracker.recent_jobs[0].status, JobDisplayStatus::Completed);
    assert_eq!(tracker.icon_state, IconState::Green);
}

/// Regression test for the failure path: created → failed.
#[test]
fn full_lifecycle_created_failed() {
    let mut tracker = JobTracker::new();
    tracker.on_job_created("job-fail".into(), "pjpop printer".into());

    let r = tracker.on_state_changed("job-fail", JobState::Failed);
    assert_eq!(r, Some(JobDisplayStatus::Failed));
    assert_eq!(tracker.recent_jobs[0].status, JobDisplayStatus::Failed);
    assert_eq!(tracker.icon_state, IconState::Red);
}

#[test]
fn job_completed_sets_green() {
    let mut tracker = JobTracker::new();
    tracker.set_online(true);
    tracker.on_job_created("job-1".into(), "test.pdf".into());
    tracker.on_print_event("job-1", PrintStage::Completed, true);
    assert_eq!(tracker.icon_state, IconState::Green);
    assert_eq!(tracker.recent_jobs[0].status, JobDisplayStatus::Completed);
}

#[test]
fn job_failed_sets_red() {
    let mut tracker = JobTracker::new();
    tracker.set_online(true);
    tracker.on_job_created("job-1".into(), "test.pdf".into());
    tracker.on_print_event("job-1", PrintStage::Failed, false);
    assert_eq!(tracker.icon_state, IconState::Red);
    assert_eq!(tracker.recent_jobs[0].status, JobDisplayStatus::Failed);
}

#[test]
fn max_5_recent_jobs() {
    let mut tracker = JobTracker::new();
    for i in 0..7 {
        tracker.on_job_created(format!("job-{i}"), format!("doc-{i}.pdf"));
    }
    assert_eq!(tracker.recent_jobs.len(), 5);
    // Most recent first
    assert_eq!(tracker.recent_jobs[0].job_id, "job-6");
    assert_eq!(tracker.recent_jobs[1].job_id, "job-5");
    assert_eq!(tracker.recent_jobs[4].job_id, "job-2");
}

#[test]
fn set_online_preserves_red() {
    let mut tracker = JobTracker::new();
    tracker.set_online(true);
    tracker.on_job_created("job-1".into(), "test.pdf".into());
    tracker.on_print_event("job-1", PrintStage::Failed, false);
    assert_eq!(tracker.icon_state, IconState::Red);
    // Coming online should NOT reset Red to Green
    tracker.set_online(true);
    assert_eq!(tracker.icon_state, IconState::Red);
}

#[test]
fn set_online_transitions() {
    let mut tracker = JobTracker::new();
    assert_eq!(tracker.icon_state, IconState::Gray);
    // Gray → online → Green
    tracker.set_online(true);
    assert_eq!(tracker.icon_state, IconState::Green);
    // Green → offline → Gray
    tracker.set_online(false);
    assert_eq!(tracker.icon_state, IconState::Gray);
}

// -- FilterState --------------------------------------------------

#[test]
fn pending_drops_all_events_with_user() {
    let tracker = JobTracker::new();
    // Default state is Pending — must drop everything until detection completes.
    assert!(!tracker.should_process(&Some("anyone".into())));
}

#[test]
fn pending_drops_all_events_without_user() {
    let tracker = JobTracker::new();
    assert!(!tracker.should_process(&None));
}

#[test]
fn disabled_passes_all_events() {
    let mut tracker = JobTracker::new();
    tracker.set_filter_state(FilterState::Disabled);
    assert!(tracker.should_process(&Some("alice".into())));
    assert!(tracker.should_process(&None));
}

#[test]
fn user_state_matches_case_insensitive() {
    let mut tracker = JobTracker::new();
    tracker.set_filter_state(FilterState::User("Admin".into()));
    assert!(tracker.should_process(&Some("admin".into())));
    assert!(tracker.should_process(&Some("ADMIN".into())));
    assert!(tracker.should_process(&Some("Admin".into())));
    assert!(!tracker.should_process(&Some("other_user".into())));
}

#[test]
fn user_state_drops_none_requesting_user() {
    let mut tracker = JobTracker::new();
    tracker.set_filter_state(FilterState::User("admin".into()));
    assert!(!tracker.should_process(&None));
}
