//! CUPS backend for macOS and Linux: the PDF goes to CUPS with `lp`, which
//! renders PDF natively, and `lpstat` confirms the job left the queue.
use vstd::prelude::*;

use crate::backend::record_check;
use crate::job_event::{event_is, EventEmitter, PrintStage};
use crate::printer::PrintVerification;
use crate::text::push_str;

verus! {

#[derive(Debug)]
pub struct CupsBackend {
    target_printer: String,
}

impl CupsBackend {
    pub closed spec fn target(&self) -> Seq<char> {
        self.target_printer@
    }

    pub fn new(target_printer: String) -> (r: Self)
        ensures
            r.target() == target_printer@,
    {
        CupsBackend { target_printer }
    }

    pub fn name(&self) -> (r: &'static str)
        ensures
            r@ == "cups"@,
    {
        "cups"
    }

    /// The CUPS printer jobs are submitted to.
    pub fn target_printer(&self) -> (r: &str)
        ensures
            r@ == self.target(),
    {
        self.target_printer.as_str()
    }
}

/// Records the `lpstat` verdict on a job sent to `printer` (shown as
/// `display`): `Verified` by `cups_lpstat` and `Completed`, or a `Failed`
/// event `CUPS spooler <status>: <detail> (printer: <printer>)`.
pub fn record_lpstat(
    events: &mut EventEmitter,
    job_id: &str,
    printer: &str,
    display: &str,
    v: &PrintVerification,
) -> (r: Result<(), String>)
    ensures
        ({
            let n = old(events).emitted().len();
            let evidence = "CUPS job completed on "@ + display@;
            let failure = "CUPS spooler "@ + v.spooler_status@ + ": "@ + v.detail@ + " (printer: "@
                + printer@ + ")"@;
            if v.success {
                &&& r is Ok
                &&& final(events).emitted().len() == n + 2
                &&& final(events).emitted().take(n as int) == old(events).emitted()
                &&& event_is(final(events).emitted()[n as int], job_id@, PrintStage::Verified, true, evidence, "cups_lpstat"@, evidence)
                &&& event_is(
                    final(events).emitted()[n + 1 as int],
                    job_id@,
                    PrintStage::Completed,
                    true,
                    "Printed via CUPS on "@ + display@,
                    Seq::<char>::empty(),
                    Seq::<char>::empty(),
                )
            } else {
                &&& r matches Err(e) && e@ == failure
                &&& final(events).emitted().len() == n + 1
                &&& final(events).emitted().drop_last() == old(events).emitted()
                &&& event_is(final(events).emitted().last(), job_id@, PrintStage::Failed, false, failure, "cups_lpstat"@, failure)
            }
        }),
{
    let mut evidence = String::new();
    push_str(&mut evidence, "CUPS job completed on ");
    push_str(&mut evidence, display);
    let mut completed = String::new();
    push_str(&mut completed, "Printed via CUPS on ");
    push_str(&mut completed, display);
    let mut failure = String::new();
    push_str(&mut failure, "CUPS spooler ");
    push_str(&mut failure, v.spooler_status.as_str());
    push_str(&mut failure, ": ");
    push_str(&mut failure, v.detail.as_str());
    push_str(&mut failure, " (printer: ");
    push_str(&mut failure, printer);
    push_str(&mut failure, ")");
    record_check(events, job_id, v.success, "cups_lpstat", evidence.as_str(), completed.as_str(), failure.as_str())
}

} // verus!
