use devbridge::inflight::{dispatch_result, InFlightJobs, PrintDispatch};

#[test]
fn test_first_begin_succeeds_second_is_refused() {
    let mut jobs = InFlightJobs::new();
    let g1 = jobs.try_begin("job-a");
    assert!(g1.is_some(), "first dispatch for a job_id must be allowed");
    // A second concurrent begin for the same job_id must be refused.
    let g2 = jobs.try_begin("job-a");
    assert!(
        g2.is_none(),
        "a second print for a job_id already in flight MUST be suppressed"
    );
    assert_eq!(jobs.len(), 1, "only one slot held while first guard alive");
    assert!(jobs.contains("job-a"));
}

#[test]
fn test_distinct_job_ids_run_concurrently() {
    let mut jobs = InFlightJobs::new();
    let _a = jobs.try_begin("job-a").expect("job-a allowed");
    let b = jobs.try_begin("job-b");
    assert!(
        b.is_some(),
        "distinct job_ids must not block each other — only same-id is guarded"
    );
    assert_eq!(jobs.len(), 2);
}

#[test]
fn test_slot_released_on_guard_drop_allows_relaunch() {
    let mut jobs = InFlightJobs::new();
    {
        let g = jobs.try_begin("job-a").expect("first allowed");
        assert!(jobs.contains("job-a"));
        // the task finished unwinding: its slot is given back
        jobs.release(g);
    }
    assert!(
        jobs.is_empty(),
        "releasing the guard must release the in-flight slot"
    );
    // After the prior task fully exits, a legitimate retry may run.
    let g = jobs.try_begin("job-a");
    assert!(
        g.is_some(),
        "once the in-flight slot is released, a retry of the same job is allowed"
    );
}

#[test]
fn release_of_one_job_keeps_the_other_in_flight() {
    let mut jobs = InFlightJobs::new();
    let a = jobs.try_begin("job-a").unwrap();
    let _b = jobs.try_begin("job-b").unwrap();
    assert_eq!(a.job_id(), "job-a");
    jobs.release(a);
    assert!(!jobs.contains("job-a"));
    assert!(jobs.contains("job-b"));
    assert!(jobs.try_begin("job-b").is_none());
}

#[test]
fn dispatch_outcomes_become_results() {
    assert_eq!(dispatch_result(PrintDispatch::Completed(Ok(())), 30), Ok(()));
    assert_eq!(
        dispatch_result(PrintDispatch::Completed(Err("paper jam".to_string())), 30),
        Err("paper jam".to_string())
    );
    assert_eq!(
        dispatch_result(PrintDispatch::TimedOut, 1800),
        Err("print task timed out after 1800s — backend or spooler hung".to_string())
    );
    assert_eq!(
        dispatch_result(PrintDispatch::DuplicateSuppressed, 1800),
        Err("duplicate print suppressed — prior task for this job_id still in flight".to_string())
    );
}

#[test]
fn in_flight_count_follows_begin_and_release() {
    let mut jobs = InFlightJobs::new();
    let a = jobs.try_begin("a").unwrap();
    let _b = jobs.try_begin("b").unwrap();
    assert_eq!(jobs.len(), 2);
    assert!(jobs.try_begin("a").is_none());
    assert_eq!(jobs.len(), 2);
    jobs.release(a);
    assert_eq!(jobs.len(), 1);
}
