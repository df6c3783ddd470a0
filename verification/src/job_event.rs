//! The print pipeline's audit trail: stages, events, and the emitter that
//! backends report through.
use vstd::prelude::*;

verus! {

/// Stages in the print pipeline audit trail.
#[derive(Debug, Clone, Copy, PartialEq, Eq, Structural)]
pub enum PrintStage {
    Received,
    Routed,
    Downloading,
    Downloaded,
    Rendering,
    Rendered,
    Sending,
    Sent,
    Acknowledged,
    Verified,
    Completed,
    Failed,
    Retrying,
}

/// A single event in a print job's audit trail. `timestamp` is seconds
/// since the Unix epoch (UTC).
#[derive(Debug, Clone)]
pub struct PrintJobEvent {
    pub job_id: String,
    /// The user who sent the job to the server's printer, when known.
    pub requesting_user: Option<String>,
    pub stage: PrintStage,
    pub success: bool,
    pub detail: String,
    pub verification_method: String,
    pub verification_evidence: String,
    pub timestamp: i64,
}

/// `SystemTime::now().duration_since(UNIX_EPOCH)`: how far the system
/// clock reads after the Unix epoch (`Ok`) or before it (`Err`), in whole
/// seconds and the nanoseconds beyond them. Nothing is stated of it: it is
/// the clock.
#[verifier::external_body]
fn clock_since_epoch() -> Result<(u64, u32), (u64, u32)> {
    match std::time::SystemTime::now().duration_since(std::time::UNIX_EPOCH) {
        Ok(d) => Ok((d.as_secs(), d.subsec_nanos())),
        Err(e) => Err((e.duration().as_secs(), e.duration().subsec_nanos())),
    }
}

/// The current time in whole seconds since the Unix epoch (UTC), rounded
/// down, also when the clock reads before 1970; held at the ends of `i64`.
/// Nothing is stated of it: it depends on the clock.
pub(crate) fn unix_now() -> i64 {
    match clock_since_epoch() {
        Ok((secs, _)) => if secs > i64::MAX as u64 {
            i64::MAX
        } else {
            secs as i64
        },
        Err((secs, nanos)) => if secs >= i64::MAX as u64 {
            i64::MIN
        } else {
            let before: i64 = -(secs as i64);
            if nanos > 0 {
                before - 1
            } else {
                before
            }
        },
    }
}

/// `e` carries these fields (its timestamp aside).
pub open spec fn event_is(
    e: PrintJobEvent,
    job_id: Seq<char>,
    stage: PrintStage,
    success: bool,
    detail: Seq<char>,
    method: Seq<char>,
    evidence: Seq<char>,
) -> bool {
    &&& e.job_id@ == job_id
    &&& e.stage == stage
    &&& e.success == success
    &&& e.detail@ == detail
    &&& e.verification_method@ == method
    &&& e.verification_evidence@ == evidence
}

impl PrintJobEvent {
    /// A new event stamped with the current time, without verification data.
    pub fn new(job_id: &str, stage: PrintStage, success: bool, detail: &str) -> (r: Self)
        ensures
            r.job_id@ == job_id@,
            r.stage == stage,
            r.success == success,
            r.detail@ == detail@,
            r.verification_method@ == Seq::<char>::empty(),
            r.verification_evidence@ == Seq::<char>::empty(),
            r.requesting_user is None,
    {
        PrintJobEvent {
            job_id: job_id.to_owned(),
            requesting_user: None,
            stage,
            success,
            detail: detail.to_owned(),
            verification_method: String::new(),
            verification_evidence: String::new(),
            timestamp: unix_now(),
        }
    }

    /// A successful event.
    pub fn ok(job_id: &str, stage: PrintStage, detail: &str) -> (r: Self)
        ensures
            r.job_id@ == job_id@,
            r.stage == stage,
            r.success,
            r.detail@ == detail@,
            r.verification_method@ == Seq::<char>::empty(),
            r.verification_evidence@ == Seq::<char>::empty(),
            r.requesting_user is None,
    {
        Self::new(job_id, stage, true, detail)
    }

    /// A failed event.
    pub fn fail(job_id: &str, stage: PrintStage, detail: &str) -> (r: Self)
        ensures
            r.job_id@ == job_id@,
            r.stage == stage,
            !r.success,
            r.detail@ == detail@,
            r.verification_method@ == Seq::<char>::empty(),
            r.verification_evidence@ == Seq::<char>::empty(),
            r.requesting_user is None,
    {
        Self::new(job_id, stage, false, detail)
    }
}

/// The verification method and evidence of the last event in `evs` that
/// carries a method.
pub open spec fn last_verification_of(evs: Seq<PrintJobEvent>) -> (Seq<char>, Seq<char>)
    decreases evs.len(),
{
    if evs.len() == 0 {
        (Seq::<char>::empty(), Seq::<char>::empty())
    } else if evs.last().verification_method@.len() > 0 {
        (evs.last().verification_method@, evs.last().verification_evidence@)
    } else {
        last_verification_of(evs.drop_last())
    }
}

/// The last verification reads back the most recent delivery check: an
/// event that carries a verification method replaces what was there, and
/// one without leaves it as it was.
pub proof fn law_last_verification_reads_back(evs: Seq<PrintJobEvent>, e: PrintJobEvent)
    ensures
        e.verification_method@.len() > 0 ==> last_verification_of(evs.push(e)) == (
            e.verification_method@,
            e.verification_evidence@,
        ),
        e.verification_method@.len() == 0 ==> last_verification_of(evs.push(e))
            == last_verification_of(evs),
{
    assert(evs.push(e).drop_last() =~= evs);
}

/// Collects the events a backend emits, in order, for the caller to forward.
#[derive(Debug)]
pub struct EventEmitter {
    events: Vec<PrintJobEvent>,
}

impl EventEmitter {
    pub closed spec fn emitted(&self) -> Seq<PrintJobEvent> {
        self.events@
    }

    /// An emitter that has emitted nothing.
    pub fn new() -> (r: Self)
        ensures
            r.emitted() == Seq::<PrintJobEvent>::empty(),
    {
        EventEmitter { events: Vec::new() }
    }

    /// Emits an event.
    pub fn emit(&mut self, event: PrintJobEvent)
        ensures
            final(self).emitted() == old(self).emitted().push(event),
    {
        self.events.push(event);
    }

    /// Emits a successful event.
    pub fn emit_ok(&mut self, job_id: &str, stage: PrintStage, detail: &str)
        ensures
            final(self).emitted().len() == old(self).emitted().len() + 1,
            final(self).emitted().drop_last() == old(self).emitted(),
            event_is(
                final(self).emitted().last(),
                job_id@,
                stage,
                true,
                detail@,
                Seq::<char>::empty(),
                Seq::<char>::empty(),
            ),
    {
        let e = PrintJobEvent::ok(job_id, stage, detail);
        self.emit(e);
        assert(self.emitted().drop_last() =~= old(self).emitted());
    }

    /// Emits a failed event.
    pub fn emit_fail(&mut self, job_id: &str, stage: PrintStage, detail: &str)
        ensures
            final(self).emitted().len() == old(self).emitted().len() + 1,
            final(self).emitted().drop_last() == old(self).emitted(),
            event_is(
                final(self).emitted().last(),
                job_id@,
                stage,
                false,
                detail@,
                Seq::<char>::empty(),
                Seq::<char>::empty(),
            ),
    {
        let e = PrintJobEvent::fail(job_id, stage, detail);
        self.emit(e);
        assert(self.emitted().drop_last() =~= old(self).emitted());
    }

    /// Emits the `Verified` event of a delivery check: `method` names the
    /// check, `evidence` what it saw (also the event's detail).
    pub fn emit_verified(&mut self, job_id: &str, method: &str, evidence: &str)
        ensures
            final(self).emitted().len() == old(self).emitted().len() + 1,
            final(self).emitted().drop_last() == old(self).emitted(),
            event_is(
                final(self).emitted().last(),
                job_id@,
                PrintStage::Verified,
                true,
                evidence@,
                method@,
                evidence@,
            ),
    {
        let mut e = PrintJobEvent::ok(job_id, PrintStage::Verified, evidence);
        e.verification_method = method.to_owned();
        e.verification_evidence = evidence.to_owned();
        self.emit(e);
        assert(self.emitted().drop_last() =~= old(self).emitted());
    }

    /// Emits the `Failed` event of a delivery check that did not confirm the
    /// job: `detail` says why, `method` names the check, `evidence` what it saw.
    pub fn emit_unverified(&mut self, job_id: &str, detail: &str, method: &str, evidence: &str)
        ensures
            final(self).emitted().len() == old(self).emitted().len() + 1,
            final(self).emitted().drop_last() == old(self).emitted(),
            event_is(
                final(self).emitted().last(),
                job_id@,
                PrintStage::Failed,
                false,
                detail@,
                method@,
                evidence@,
            ),
    {
        let mut e = PrintJobEvent::fail(job_id, PrintStage::Failed, detail);
        e.verification_method = method.to_owned();
        e.verification_evidence = evidence.to_owned();
        self.emit(e);
        assert(self.emitted().drop_last() =~= old(self).emitted());
    }

    /// The verification method and evidence of the most recent event that
    /// carries one; both empty when none does.
    pub fn last_verification(&self) -> (r: (String, String))
        ensures
            (r.0@, r.1@) == last_verification_of(self.emitted()),
    {
        let mut i: usize = self.events.len();
        assert(self.events@.take(i as int) =~= self.events@);
        while i > 0
            invariant
                i <= self.events@.len(),
                last_verification_of(self.events@) == last_verification_of(self.events@.take(i as int)),
            decreases i,
        {
            let e = &self.events[i - 1];
            assert(self.events@.take(i as int).last() == self.events@[i - 1]);
            assert(self.events@.take(i as int).drop_last() =~= self.events@.take(i - 1));
            if !e.verification_method.as_str().is_empty() {
                return (e.verification_method.clone(), e.verification_evidence.clone());
            }
            i = i - 1;
        }
        (String::new(), String::new())
    }

    /// Hands the emitted events over, oldest first, and starts afresh.
    pub fn drain(&mut self) -> (r: Vec<PrintJobEvent>)
        ensures
            r@ == old(self).emitted(),
            final(self).emitted() == Seq::<PrintJobEvent>::empty(),
    {
        let mut out: Vec<PrintJobEvent> = Vec::new();
        core::mem::swap(&mut out, &mut self.events);
        out
    }
}

} // verus!
