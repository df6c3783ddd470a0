//! In-flight job registry: defense in depth against dispatching the same
//! job twice.
//!
//! When the outer per-job timeout fires on a hung backend, the server
//! requeues the job and streams the same `job_id` again while the abandoned
//! print task may still be unwinding. [`InFlightJobs`] records which job ids
//! have a live print task: [`InFlightJobs::try_begin`] refuses a second
//! dispatch of an id that is in flight, and [`InFlightJobs::release`] frees
//! the slot once the task has stopped touching the printer.
use vstd::prelude::*;

use crate::text::{push_dec, push_str};

verus! {

/// A claim on one job id's in-flight slot, handed out by
/// [`InFlightJobs::try_begin`] and given back with [`InFlightJobs::release`].
#[derive(Debug)]
pub struct InFlightGuard {
    job_id: String,
}

impl InFlightGuard {
    pub closed spec fn id(&self) -> Seq<char> {
        self.job_id@
    }

    /// The job id whose slot this guard holds.
    pub fn job_id(&self) -> (r: &str)
        ensures
            r@ == self.id(),
    {
        self.job_id.as_str()
    }
}

/// The job ids that currently have a live print task.
#[derive(Debug)]
pub struct InFlightJobs {
    ids: Vec<String>,
}

pub open spec fn id_views(v: Seq<String>) -> Seq<Seq<char>> {
    v.map_values(|s: String| s@)
}

impl View for InFlightJobs {
    type V = Set<Seq<char>>;

    closed spec fn view(&self) -> Set<Seq<char>> {
        id_views(self.ids@).to_set()
    }
}

impl InFlightJobs {
    /// No job id is held twice.
    #[verifier::type_invariant]
    spec fn no_id_twice(&self) -> bool {
        id_views(self.ids@).no_duplicates()
    }

    /// An empty registry.
    pub fn new() -> (r: Self)
        ensures
            r@ == Set::<Seq<char>>::empty(),
            r@.finite(),
    {
        let r = InFlightJobs { ids: Vec::new() };
        assert(id_views(r.ids@).to_set() =~= Set::<Seq<char>>::empty());
        r
    }

    fn position(&self, job_id: &String) -> (r: Option<usize>)
        ensures
            match r {
                Some(i) => i < self.ids@.len() && self.ids@[i as int]@ == job_id@,
                None => !self@.contains(job_id@),
            },
    {
        let mut i: usize = 0;
        while i < self.ids.len()
            invariant
                i <= self.ids@.len(),
                forall|j: int| 0 <= j < i ==> self.ids@[j]@ != job_id@,
            decreases self.ids@.len() - i,
        {
            if self.ids[i] == *job_id {
                return Some(i);
            }
            i = i + 1;
        }
        assert(!id_views(self.ids@).contains(job_id@)) by {
            if id_views(self.ids@).contains(job_id@) {
                let k = choose|k: int| 0 <= k < id_views(self.ids@).len() && id_views(self.ids@)[k] == job_id@;
                assert(self.ids@[k]@ == job_id@);
            }
        }
        None
    }

    /// Marks `job_id` as in flight. Returns a guard when it was not in flight
    /// (the caller may print); returns `None`, changing nothing, when a print
    /// task for it is already running (the caller must not print).
    pub fn try_begin(&mut self, job_id: &str) -> (r: Option<InFlightGuard>)
        ensures
            old(self)@.contains(job_id@) ==> r is None && final(self)@ == old(self)@,
            !old(self)@.contains(job_id@) ==> (r matches Some(g) && g.id() == job_id@
                && final(self)@ == old(self)@.insert(job_id@)),
            final(self)@.finite(),
            final(self)@.len() == (if old(self)@.contains(job_id@) {
                old(self)@.len()
            } else {
                old(self)@.len() + 1
            }),
    {
        proof {
            use_type_invariant(&*self);
            vstd::seq_lib::seq_to_set_is_finite(id_views(self.ids@));
        }
        let id: String = job_id.to_owned();
        match self.position(&id) {
            Some(i) => {
                assert(id_views(self.ids@)[i as int] == job_id@);
                None
            },
            None => {
                let ghost before = id_views(self.ids@);
                let copy = id.clone();
                let mut ids: Vec<String> = Vec::new();
                core::mem::swap(&mut ids, &mut self.ids);
                ids.push(copy);
                proof {
                    assert(id_views(ids@) =~= before.push(job_id@));
                    assert forall|a: int, b: int|
                        0 <= a < id_views(ids@).len() && 0 <= b < id_views(ids@).len() && a != b implies id_views(ids@)[a]
                        != id_views(ids@)[b] by {
                        if a == before.len() as int {
                            assert(!before.contains(job_id@));
                            assert(before[b] == id_views(ids@)[b]);
                        } else if b == before.len() as int {
                            assert(!before.contains(job_id@));
                            assert(before[a] == id_views(ids@)[a]);
                        }
                    }
                    assert(id_views(ids@).to_set() =~= before.to_set().insert(job_id@)) by {
                        assert forall|x: Seq<char>| id_views(ids@).contains(x) <==> before.contains(x) || x == job_id@ by {
                            if id_views(ids@).contains(x) {
                                let k = choose|k: int| 0 <= k < id_views(ids@).len() && id_views(ids@)[k] == x;
                                if k < before.len() {
                                    assert(before[k] == x);
                                }
                            }
                            if before.contains(x) {
                                let k = choose|k: int| 0 <= k < before.len() && before[k] == x;
                                assert(id_views(ids@)[k] == x);
                            }
                            if x == job_id@ {
                                assert(id_views(ids@)[before.len() as int] == x);
                            }
                        }
                    }
                }
                self.ids = ids;
                assert(self@ == old(self)@.insert(job_id@));
                proof {
                    vstd::seq_lib::seq_to_set_is_finite(id_views(self.ids@));
                }
                let g = InFlightGuard { job_id: id };
                assert(g.id() == job_id@);
                Some(g)
            },
        }
    }

    /// Releases the slot the guard holds (the print task has finished
    /// touching the printer); the same job may then be dispatched again.
    pub fn release(&mut self, guard: InFlightGuard)
        ensures
            final(self)@ == old(self)@.remove(guard.id()),
            final(self)@.finite(),
            final(self)@.len() == (if old(self)@.contains(guard.id()) {
                old(self)@.len() - 1
            } else {
                old(self)@.len() as int
            }),
    {
        proof {
            use_type_invariant(&*self);
            vstd::seq_lib::seq_to_set_is_finite(id_views(self.ids@));
        }
        match self.position(&guard.job_id) {
            None => {
                assert(old(self)@.remove(guard.id()) =~= old(self)@);
            },
            Some(i) => {
                let ghost before = id_views(self.ids@);
                let mut ids: Vec<String> = Vec::new();
                core::mem::swap(&mut ids, &mut self.ids);
                ids.remove(i);
                proof {
                    assert(id_views(ids@) =~= before.remove(i as int));
                    assert forall|a: int, b: int|
                        0 <= a < id_views(ids@).len() && 0 <= b < id_views(ids@).len() && a != b implies id_views(ids@)[a]
                        != id_views(ids@)[b] by {
                        let a2 = if a < i { a } else { a + 1 };
                        let b2 = if b < i { b } else { b + 1 };
                        assert(id_views(ids@)[a] == before[a2]);
                        assert(id_views(ids@)[b] == before[b2]);
                    }
                    assert(id_views(ids@).to_set() =~= before.to_set().remove(guard.id())) by {
                        assert forall|x: Seq<char>| id_views(ids@).contains(x) <==> before.contains(x) && x != guard.id() by {
                            if id_views(ids@).contains(x) {
                                let k = choose|k: int| 0 <= k < id_views(ids@).len() && id_views(ids@)[k] == x;
                                let k2 = if k < i { k } else { k + 1 };
                                assert(before.remove(i as int)[k] == before[k2]);
                                assert(before[k2] == x);
                                assert(before[i as int] == guard.id());
                                assert(k2 != i);
                                assert(x != guard.id());
                            }
                            if before.contains(x) && x != guard.id() {
                                let k = choose|k: int| 0 <= k < before.len() && before[k] == x;
                                assert(before[i as int] == guard.id());
                                assert(k != i);
                                let k2 = if k < i { k } else { k - 1 };
                                assert(before.remove(i as int)[k2] == before[k]);
                                assert(id_views(ids@)[k2] == x);
                            }
                        }
                    }
                }
                self.ids = ids;
                proof {
                    vstd::seq_lib::seq_to_set_is_finite(id_views(self.ids@));
                }
            },
        }
    }

    /// Number of jobs currently in flight (finitely many).
    pub fn len(&self) -> (r: usize)
        ensures
            r == self@.len(),
            self@.finite(),
    {
        proof {
            use_type_invariant(self);
            vstd::seq_lib::seq_to_set_is_finite(id_views(self.ids@));
            id_views(self.ids@).unique_seq_to_set();
        }
        self.ids.len()
    }

    /// True when no job is in flight.
    pub fn is_empty(&self) -> (r: bool)
        ensures
            r == (self@.len() == 0),
    {
        self.len() == 0
    }

    /// True when a print task for `job_id` is registered.
    pub fn contains(&self, job_id: &str) -> (r: bool)
        ensures
            r == self@.contains(job_id@),
    {
        let id: String = job_id.to_owned();
        match self.position(&id) {
            Some(i) => {
                assert(id_views(self.ids@)[i as int] == job_id@);
                true
            },
            None => false,
        }
    }
}

} // verus!

verus! {

/// Releasing the slot undoes beginning it: beginning a job that was not in
/// flight and then releasing its guard leaves the registry as it was.
pub proof fn law_release_undoes_begin(s: Set<Seq<char>>, id: Seq<char>)
    requires
        !s.contains(id),
    ensures
        s.insert(id).remove(id) == s,
{
    assert(s.insert(id).remove(id) =~= s);
}

/// While a job is in flight a second dispatch of it is refused; once its
/// guard is released the job may be dispatched again.
pub proof fn law_one_task_per_job(s: Set<Seq<char>>, id: Seq<char>)
    ensures
        s.insert(id).contains(id),
        !s.insert(id).remove(id).contains(id),
{
}

/// Distinct job ids do not block each other: beginning or releasing one id
/// does not change whether another is in flight.
pub proof fn law_distinct_jobs_independent(s: Set<Seq<char>>, a: Seq<char>, b: Seq<char>)
    requires
        a != b,
    ensures
        s.insert(a).contains(b) == s.contains(b),
        s.remove(a).contains(b) == s.contains(b),
{
}

/// Outcome of one print dispatch under the per-job outer timeout.
#[derive(Debug)]
pub enum PrintDispatch {
    /// The print task finished within the timeout, with the backend's own result.
    Completed(Result<(), String>),
    /// The print task overran the timeout; its cancellation was signalled.
    TimedOut,
    /// A print task for this job id was already in flight; nothing was sent.
    DuplicateSuppressed,
}

pub open spec fn timed_out_message(timeout_secs: u64) -> Seq<char> {
    "print task timed out after "@ + crate::text::dec(timeout_secs as nat) + "s — backend or spooler hung"@
}

pub open spec fn duplicate_message() -> Seq<char> {
    "duplicate print suppressed — prior task for this job_id still in flight"@
}

/// The print result reported for a dispatch outcome, with the error taken
/// by its characters.
pub open spec fn dispatch_outcome(dispatch: PrintDispatch, timeout_secs: u64) -> Result<(), Seq<char>> {
    match dispatch {
        PrintDispatch::Completed(Ok(())) => Ok(()),
        PrintDispatch::Completed(Err(e)) => Err(e@),
        PrintDispatch::TimedOut => Err(timed_out_message(timeout_secs)),
        PrintDispatch::DuplicateSuppressed => Err(duplicate_message()),
    }
}

/// The print result that the receiver reports for a dispatch outcome: the
/// backend's result, or an error for a timeout or a suppressed duplicate.
pub fn dispatch_result(dispatch: PrintDispatch, timeout_secs: u64) -> (r: Result<(), String>)
    ensures
        match r {
            Ok(()) => dispatch_outcome(dispatch, timeout_secs) == Ok::<(), Seq<char>>(()),
            Err(e) => dispatch_outcome(dispatch, timeout_secs) == Err::<(), Seq<char>>(e@),
        },
        match dispatch {
            PrintDispatch::Completed(res) => r == res,
            PrintDispatch::TimedOut => r matches Err(e) && e@ == timed_out_message(timeout_secs),
            PrintDispatch::DuplicateSuppressed => r matches Err(e) && e@ == duplicate_message(),
        },
{
    match dispatch {
        PrintDispatch::Completed(res) => res,
        PrintDispatch::TimedOut => {
            let mut s = String::new();
            push_str(&mut s, "print task timed out after ");
            push_dec(&mut s, timeout_secs);
            push_str(&mut s, "s — backend or spooler hung");
            Err(s)
        },
        PrintDispatch::DuplicateSuppressed => {
            let mut s = String::new();
            push_str(&mut s, "duplicate print suppressed — prior task for this job_id still in flight");
            Err(s)
        },
    }
}

} // verus!
