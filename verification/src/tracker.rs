//! The tray's view of recent jobs: icon state, the five most recent jobs,
//! and the per-user event filter.
use vstd::prelude::*;

use crate::job::JobState;
use crate::job_event::{unix_now, PrintStage};
use crate::text::{ascii_lower_seq, chars_of, eq_ignore_ascii_case};

verus! {

/// Most recent jobs the tray shows.
pub const MAX_RECENT_JOBS: usize = 5;

#[derive(Debug, Clone, Copy, PartialEq, Eq, Structural)]
pub enum IconState {
    /// Idle, all well.
    Green,
    /// A job is printing.
    Yellow,
    /// The last job failed.
    Red,
    /// The service is offline.
    Gray,
}

#[derive(Debug, Clone, Copy, PartialEq, Eq, Structural)]
pub enum JobDisplayStatus {
    InProgress,
    Completed,
    Failed,
}

/// One job in the tray's list. `timestamp` is seconds since the Unix epoch.
#[derive(Debug)]
pub struct RecentJob {
    pub job_id: String,
    pub target_printer: String,
    pub status: JobDisplayStatus,
    pub timestamp: i64,
}

/// Which events the tray shows. `Pending` (the start state) drops every
/// event until detection has proved whose session this is; showing the
/// wrong one would leak another user's print notifications.
#[derive(Debug, Clone, PartialEq, Eq)]
pub enum FilterState {
    /// Detection has not succeeded yet: drop all events.
    Pending,
    /// Client mode: pass all events.
    Disabled,
    /// Server mode: pass only this user's events.
    User(String),
}

/// A recent job as plain values: id, printer, status, time.
pub type JobView = (Seq<char>, Seq<char>, JobDisplayStatus, i64);

impl View for RecentJob {
    type V = JobView;

    open spec fn view(&self) -> JobView {
        (self.job_id@, self.target_printer@, self.status, self.timestamp)
    }
}

pub open spec fn job_views(v: Seq<RecentJob>) -> Seq<JobView> {
    v.map_values(|j: RecentJob| j@)
}

/// The list after adding `j` in front, keeping the newest five.
pub open spec fn with_job(jobs: Seq<JobView>, j: JobView) -> Seq<JobView> {
    let n = seq![j] + jobs;
    if n.len() > MAX_RECENT_JOBS {
        n.take(MAX_RECENT_JOBS as int)
    } else {
        n
    }
}

/// Index of the first job with id `id`, or the number of jobs.
pub open spec fn find_job(jobs: Seq<JobView>, id: Seq<char>) -> nat
    decreases jobs.len(),
{
    if jobs.len() == 0 {
        0
    } else if jobs[0].0 == id {
        0
    } else {
        1 + find_job(jobs.drop_first(), id)
    }
}

/// The printer of the first tracked job with id `id`; empty when none is.
pub open spec fn printer_of(jobs: Seq<JobView>, id: Seq<char>) -> Seq<char> {
    let i = find_job(jobs, id);
    if i < jobs.len() {
        jobs[i as int].1
    } else {
        Seq::<char>::empty()
    }
}

pub open spec fn with_status(jobs: Seq<JobView>, i: int, s: JobDisplayStatus) -> Seq<JobView> {
    jobs.update(i, (jobs[i].0, jobs[i].1, s, jobs[i].3))
}

/// The display status a job state ends a job with, if it is terminal.
pub open spec fn terminal_status(state: JobState) -> Option<JobDisplayStatus> {
    match state {
        JobState::Completed => Some(JobDisplayStatus::Completed),
        JobState::Failed | JobState::Cancelled => Some(JobDisplayStatus::Failed),
        _ => None,
    }
}

pub open spec fn icon_for(s: JobDisplayStatus) -> IconState {
    match s {
        JobDisplayStatus::Completed => IconState::Green,
        JobDisplayStatus::Failed => IconState::Red,
        JobDisplayStatus::InProgress => IconState::Yellow,
    }
}

/// The display status a print-stage event gives a tracked job, if any:
/// a successful `Completed` completes it; `Failed` or any failed event fails it.
pub open spec fn stage_status(stage: PrintStage, success: bool) -> Option<JobDisplayStatus> {
    if stage == PrintStage::Completed && success {
        Some(JobDisplayStatus::Completed)
    } else if stage == PrintStage::Failed || !success {
        Some(JobDisplayStatus::Failed)
    } else {
        None
    }
}

/// Whether the filter passes an event from `user`. User names compare
/// without regard to ASCII case.
pub open spec fn filter_passes(f: FilterState, user: Option<Seq<char>>) -> bool {
    match f {
        FilterState::Pending => false,
        FilterState::Disabled => true,
        FilterState::User(name) => match user {
            None => false,
            Some(u) => ascii_lower_seq(u) == ascii_lower_seq(name@),
        },
    }
}

/// The online state's effect on the icon: offline is Gray; coming online
/// turns Gray into Green and keeps any other state.
pub open spec fn icon_online(icon: IconState, online: bool) -> IconState {
    if online {
        if icon == IconState::Gray {
            IconState::Green
        } else {
            icon
        }
    } else {
        IconState::Gray
    }
}

/// Recent jobs, icon, and event filter of the tray.
pub struct JobTracker {
    pub recent_jobs: Vec<RecentJob>,
    pub icon_state: IconState,
    pub filter: FilterState,
}

impl JobTracker {
    pub open spec fn jobs(&self) -> Seq<JobView> {
        job_views(self.recent_jobs@)
    }

    pub open spec fn filter(&self) -> FilterState {
        self.filter
    }

    /// A tracker with a Gray icon, no jobs, and the `Pending` filter.
    pub fn new() -> (r: Self)
        ensures
            r.jobs() == Seq::<JobView>::empty(),
            r.icon_state == IconState::Gray,
            r.filter() == FilterState::Pending,
    {
        let r = JobTracker { recent_jobs: Vec::new(), icon_state: IconState::Gray, filter: FilterState::Pending };
        assert(r.jobs() =~= Seq::<JobView>::empty());
        r
    }

    /// The current filter state.
    pub fn filter_state(&self) -> (r: FilterState)
        ensures
            r == self.filter(),
    {
        match &self.filter {
            FilterState::Pending => FilterState::Pending,
            FilterState::Disabled => FilterState::Disabled,
            FilterState::User(u) => FilterState::User(u.clone()),
        }
    }

    /// Sets the filter state (from the detection loop).
    pub fn set_filter_state(&mut self, state: FilterState)
        ensures
            final(self).filter() == state,
            final(self).jobs() == old(self).jobs(),
            final(self).icon_state == old(self).icon_state,
    {
        self.filter = state;
    }

    /// Whether an event from `requesting_user` passes the filter: `Pending`
    /// passes nothing, `Disabled` everything, `User(u)` only `u`'s events
    /// (ASCII case ignored).
    pub fn should_process(&self, requesting_user: &Option<String>) -> (r: bool)
        ensures
            r == filter_passes(
                self.filter(),
                match requesting_user {
                    Some(u) => Some(u@),
                    None => None,
                },
            ),
    {
        match &self.filter {
            FilterState::Pending => false,
            FilterState::Disabled => true,
            FilterState::User(filter) => match requesting_user {
                None => false,
                Some(user) => {
                    let a = chars_of(user.as_str());
                    let b = chars_of(filter.as_str());
                    eq_ignore_ascii_case(a.as_slice(), b.as_slice())
                },
            },
        }
    }

    /// Adds a job in front of the list and keeps the newest five.
    pub fn add_job(&mut self, job_id: String, target_printer: String, timestamp: i64, status: JobDisplayStatus)
        ensures
            final(self).jobs() == with_job(old(self).jobs(), (job_id@, target_printer@, status, timestamp)),
            final(self).icon_state == old(self).icon_state,
            final(self).filter() == old(self).filter(),
    {
        let job = RecentJob { job_id, target_printer, status, timestamp };
        let ghost j = job@;
        self.recent_jobs.insert(0, job);
        assert(self.jobs() =~= seq![j] + old(self).jobs());
        if self.recent_jobs.len() > MAX_RECENT_JOBS {
            self.recent_jobs.truncate(MAX_RECENT_JOBS);
            assert(self.jobs() =~= (seq![j] + old(self).jobs()).take(MAX_RECENT_JOBS as int));
        }
    }

    /// Tracks a newly created job, stamped with the current time, as in
    /// progress, and turns the icon Yellow.
    pub fn on_job_created(&mut self, job_id: String, target_printer: String)
        ensures
            exists|t: i64|
                final(self).jobs() == with_job(
                    old(self).jobs(),
                    (job_id@, target_printer@, JobDisplayStatus::InProgress, t),
                ),
            final(self).icon_state == IconState::Yellow,
            final(self).filter() == old(self).filter(),
    {
        let now = unix_now();
        let ghost j = (job_id@, target_printer@, JobDisplayStatus::InProgress, now);
        self.add_job(job_id, target_printer, now, JobDisplayStatus::InProgress);
        self.icon_state = IconState::Yellow;
        assert(self.jobs() == with_job(old(self).jobs(), j));
    }

    fn find(&self, job_id: &str) -> (r: usize)
        ensures
            r == find_job(self.jobs(), job_id@),
            r <= self.recent_jobs@.len(),
    {
        let target: String = job_id.to_owned();
        let mut i: usize = 0;
        while i < self.recent_jobs.len()
            invariant
                i <= self.recent_jobs@.len(),
                target@ == job_id@,
                forall|j: int| 0 <= j < i ==> self.jobs()[j].0 != job_id@,
            decreases self.recent_jobs@.len() - i,
        {
            if self.recent_jobs[i].job_id == target {
                proof {
                    lemma_find_job(self.jobs(), job_id@, i as int);
                }
                return i;
            }
            i = i + 1;
        }
        proof {
            lemma_find_job(self.jobs(), job_id@, i as int);
        }
        i
    }

    fn set_status(&mut self, i: usize, s: JobDisplayStatus)
        requires
            i < old(self).recent_jobs@.len(),
        ensures
            final(self).jobs() == with_status(old(self).jobs(), i as int, s),
            final(self).icon_state == old(self).icon_state,
            final(self).filter() == old(self).filter(),
    {
        let j = RecentJob {
            job_id: self.recent_jobs[i].job_id.clone(),
            target_printer: self.recent_jobs[i].target_printer.clone(),
            status: s,
            timestamp: self.recent_jobs[i].timestamp,
        };
        self.recent_jobs.set(i, j);
        assert(self.jobs() =~= with_status(old(self).jobs(), i as int, s));
    }

    /// Updates a tracked job from a print-stage event: a successful
    /// `Completed` marks it completed (Green); `Failed` or a failed event
    /// marks it failed (Red); other stages change nothing. An unknown job
    /// changes nothing.
    pub fn on_print_event(&mut self, job_id: &str, stage: PrintStage, success: bool)
        ensures
            ({
                let i = find_job(old(self).jobs(), job_id@);
                if i < old(self).jobs().len() && stage_status(stage, success) is Some {
                    &&& final(self).jobs() == with_status(old(self).jobs(), i as int, stage_status(stage, success)->0)
                    &&& final(self).icon_state == icon_for(stage_status(stage, success)->0)
                } else {
                    &&& final(self).jobs() == old(self).jobs()
                    &&& final(self).icon_state == old(self).icon_state
                }
            }),
            final(self).filter() == old(self).filter(),
    {
        let i = self.find(job_id);
        if i < self.recent_jobs.len() {
            if stage == PrintStage::Completed && success {
                self.set_status(i, JobDisplayStatus::Completed);
                self.icon_state = IconState::Green;
            } else if stage == PrintStage::Failed || !success {
                self.set_status(i, JobDisplayStatus::Failed);
                self.icon_state = IconState::Red;
            }
        }
    }

    /// Updates a tracked job from a job-state change, the authoritative
    /// source for completion. `Completed` marks it completed (Green);
    /// `Failed` or `Cancelled` marks it failed (Red); either way the new
    /// status is returned so the caller can notify. Other states, and
    /// unknown jobs, change nothing and return `None`.
    pub fn on_state_changed(&mut self, job_id: &str, state: JobState) -> (r: Option<JobDisplayStatus>)
        ensures
            ({
                let i = find_job(old(self).jobs(), job_id@);
                if i < old(self).jobs().len() && terminal_status(state) is Some {
                    &&& r == terminal_status(state)
                    &&& final(self).jobs() == with_status(old(self).jobs(), i as int, terminal_status(state)->0)
                    &&& final(self).icon_state == icon_for(terminal_status(state)->0)
                } else {
                    &&& r is None
                    &&& final(self).jobs() == old(self).jobs()
                    &&& final(self).icon_state == old(self).icon_state
                }
            }),
            final(self).filter() == old(self).filter(),
    {
        let i = self.find(job_id);
        if i < self.recent_jobs.len() {
            match state {
                JobState::Completed => {
                    self.set_status(i, JobDisplayStatus::Completed);
                    self.icon_state = IconState::Green;
                    return Some(JobDisplayStatus::Completed);
                },
                JobState::Failed | JobState::Cancelled => {
                    self.set_status(i, JobDisplayStatus::Failed);
                    self.icon_state = IconState::Red;
                    return Some(JobDisplayStatus::Failed);
                },
                _ => {},
            }
        }
        None
    }

    /// The printer of the first tracked job with id `job_id`; empty when
    /// the job is not tracked.
    pub fn printer_of_job(&self, job_id: &str) -> (r: String)
        ensures
            r@ == printer_of(self.jobs(), job_id@),
    {
        let i = self.find(job_id);
        if i < self.recent_jobs.len() {
            self.recent_jobs[i].target_printer.clone()
        } else {
            String::new()
        }
    }

    /// Records whether the service is online: offline turns the icon Gray;
    /// coming online turns Gray into Green and keeps Red or Yellow.
    pub fn set_online(&mut self, online: bool)
        ensures
            final(self).icon_state == icon_online(old(self).icon_state, online),
            final(self).jobs() == old(self).jobs(),
            final(self).filter() == old(self).filter(),
    {
        if online {
            if self.icon_state == IconState::Gray {
                self.icon_state = IconState::Green;
            }
        } else {
            self.icon_state = IconState::Gray;
        }
    }
}

/// A job just added is the first one found under its id, so the events
/// that follow its creation reach it; the list never holds more than five
/// jobs, and adding one drops only the oldest.
pub proof fn law_new_job_is_tracked(jobs: Seq<JobView>, j: JobView)
    ensures
        find_job(with_job(jobs, j), j.0) == 0,
        with_job(jobs, j).len() == (if jobs.len() >= MAX_RECENT_JOBS { MAX_RECENT_JOBS as int } else {
            jobs.len() + 1int
        }),
        with_job(jobs, j)[0] == j,
        forall|k: int| 1 <= k < with_job(jobs, j).len() ==> #[trigger] with_job(jobs, j)[k] == jobs[k - 1],
{
}

/// A job created and then reported completed (or failed) by a state change
/// shows that status, and the icon turns Green (or Red).
pub proof fn law_created_then_finished(jobs: Seq<JobView>, id: Seq<char>, printer: Seq<char>, t: i64, state: JobState)
    requires
        terminal_status(state) is Some,
    ensures
        ({
            let after = with_job(jobs, (id, printer, JobDisplayStatus::InProgress, t));
            let i = find_job(after, id);
            &&& i == 0
            &&& i < after.len()
            &&& with_status(after, i as int, terminal_status(state)->0)[0].2 == terminal_status(state)->0
            &&& icon_for(terminal_status(state)->0) == (if state == JobState::Completed {
                IconState::Green
            } else {
                IconState::Red
            })
        }),
{
    law_new_job_is_tracked(jobs, (id, printer, JobDisplayStatus::InProgress, t));
}

/// Going online never hides a job's outcome: it turns only Gray into Green;
/// going offline always shows Gray.
pub proof fn law_online_keeps_job_state(icon: IconState)
    ensures
        icon != IconState::Gray ==> icon_online(icon, true) == icon,
        icon == IconState::Gray ==> icon_online(icon, true) == IconState::Green,
        icon_online(icon, false) == IconState::Gray,
{
}

/// The filter fails closed: while detection is pending no event passes,
/// and in server mode an event without a requesting user never passes.
pub proof fn law_filter_fails_closed(user: Option<Seq<char>>, name: String)
    ensures
        !filter_passes(FilterState::Pending, user),
        !filter_passes(FilterState::User(name), None),
        filter_passes(FilterState::Disabled, user),
{
}

pub proof fn lemma_find_job(jobs: Seq<JobView>, id: Seq<char>, k: int)
    requires
        0 <= k <= jobs.len(),
        forall|j: int| 0 <= j < k ==> jobs[j].0 != id,
        k < jobs.len() ==> jobs[k].0 == id,
    ensures
        find_job(jobs, id) == k,
    decreases jobs.len(),
{
    if jobs.len() > 0 && jobs[0].0 != id {
        assert forall|j: int| 0 <= j < k - 1 implies jobs.drop_first()[j].0 != id by {
            assert(jobs.drop_first()[j] == jobs[j + 1]);
        }
        if k - 1 < jobs.drop_first().len() {
            assert(jobs.drop_first()[k - 1] == jobs[k]);
        }
        lemma_find_job(jobs.drop_first(), id, k - 1);
    }
}

} // verus!
