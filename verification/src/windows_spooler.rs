//! Windows spooler backend: the PDF goes to the local Windows printer, and
//! delivery is confirmed by EventID 307 in the Print Service log (or, where
//! that log does not exist, by the spooler queue emptying). Virtual printers
//! (PDF, XPS, OneNote, fax, null) have nothing to confirm.
use vstd::prelude::*;

use crate::backend::record_check;
use crate::job_event::{event_is, EventEmitter, PrintStage};
use crate::printer::PrintVerification;
use crate::text::{
    chars_of, contains, contains_exec, escape_quotes, prefix_upto, push_escaped, push_str,
    str_lowercase, take_chars, to_lowercase,
};

verus! {

#[derive(Debug)]
pub struct WindowsSpooler {
    target_printer: String,
}

impl WindowsSpooler {
    pub closed spec fn target(&self) -> Seq<char> {
        self.target_printer@
    }

    pub fn new(target_printer: String) -> (r: Self)
        ensures
            r.target() == target_printer@,
    {
        WindowsSpooler { target_printer }
    }

    pub fn name(&self) -> (r: &'static str)
        ensures
            r@ == "windows_spooler"@,
    {
        "windows_spooler"
    }

    /// The printer configured when the backend was created.
    pub fn target_printer(&self) -> (r: &str)
        ensures
            r@ == self.target(),
    {
        self.target_printer.as_str()
    }
}

/// Whether a printer is a virtual one (its lower-cased name mentions pdf,
/// xps, onenote, fax or null): nothing physical comes out to confirm.
pub open spec fn virtual_printer_name(printer: Seq<char>) -> bool {
    let lc = str_lowercase(printer);
    contains(lc, "pdf"@) || contains(lc, "xps"@) || contains(lc, "onenote"@) || contains(lc, "fax"@)
        || contains(lc, "null"@)
}

/// Tells virtual printers from physical ones.
pub fn is_virtual_printer(printer: &str) -> (r: bool)
    ensures
        r == virtual_printer_name(printer@),
{
    let lower = to_lowercase(printer);
    let lc = chars_of(lower.as_str());
    let l = lc.as_slice();
    let pdf = chars_of("pdf");
    let xps = chars_of("xps");
    let onenote = chars_of("onenote");
    let fax = chars_of("fax");
    let null = chars_of("null");
    contains_exec(l, pdf.as_slice()) || contains_exec(l, xps.as_slice()) || contains_exec(
        l,
        onenote.as_slice(),
    ) || contains_exec(l, fax.as_slice()) || contains_exec(l, null.as_slice())
}

/// Confirms a job on a virtual printer: `Verified` by `virtual_printer`,
/// then `Completed`.
pub fn record_virtual(events: &mut EventEmitter, job_id: &str, display: &str) -> (r: Result<(), String>)
    ensures
        r is Ok,
        final(events).emitted().len() == old(events).emitted().len() + 2,
        final(events).emitted().take(old(events).emitted().len() as int) == old(events).emitted(),
        event_is(
            final(events).emitted()[old(events).emitted().len() as int],
            job_id@,
            PrintStage::Verified,
            true,
            "Virtual printer "@ + display@ + " — no physical delivery"@,
            "virtual_printer"@,
            "Virtual printer "@ + display@ + " — no physical delivery"@,
        ),
        event_is(
            final(events).emitted().last(),
            job_id@,
            PrintStage::Completed,
            true,
            "Virtual printer "@ + display@,
            Seq::<char>::empty(),
            Seq::<char>::empty(),
        ),
{
    let mut ev = String::new();
    push_str(&mut ev, "Virtual printer ");
    push_str(&mut ev, display);
    let completed = ev.clone();
    push_str(&mut ev, " — no physical delivery");
    record_check(events, job_id, true, "virtual_printer", ev.as_str(), completed.as_str(), "")
}

/// Records the spooler-queue check used where the Print Service log is not
/// available: `Verified` by `spooler_queue` and `Completed`, or a `Failed`
/// event `spooler <status>: <detail> (printer: <printer>)`.
pub fn record_queue_check(
    events: &mut EventEmitter,
    job_id: &str,
    printer: &str,
    display: &str,
    v: &PrintVerification,
) -> (r: Result<(), String>)
    ensures
        ({
            let n = old(events).emitted().len();
            let evidence = "Spooler queue cleared for "@ + display@ + " (non-Windows fallback)"@;
            let failure = "spooler "@ + v.spooler_status@ + ": "@ + v.detail@ + " (printer: "@ + printer@
                + ")"@;
            if v.success {
                &&& r is Ok
                &&& final(events).emitted().len() == n + 2
                &&& final(events).emitted().take(n as int) == old(events).emitted()
                &&& event_is(final(events).emitted()[n as int], job_id@, PrintStage::Verified, true, evidence, "spooler_queue"@, evidence)
                &&& event_is(
                    final(events).emitted()[n + 1 as int],
                    job_id@,
                    PrintStage::Completed,
                    true,
                    "Printed via spooler on "@ + display@,
                    Seq::<char>::empty(),
                    Seq::<char>::empty(),
                )
            } else {
                &&& r matches Err(e) && e@ == failure
                &&& final(events).emitted().len() == n + 1
                &&& final(events).emitted().drop_last() == old(events).emitted()
                &&& event_is(final(events).emitted().last(), job_id@, PrintStage::Failed, false, failure, "spooler_queue"@, failure)
            }
        }),
{
    let mut evidence = String::new();
    push_str(&mut evidence, "Spooler queue cleared for ");
    push_str(&mut evidence, display);
    push_str(&mut evidence, " (non-Windows fallback)");
    let mut completed = String::new();
    push_str(&mut completed, "Printed via spooler on ");
    push_str(&mut completed, display);
    let mut failure = String::new();
    push_str(&mut failure, "spooler ");
    push_str(&mut failure, v.spooler_status.as_str());
    push_str(&mut failure, ": ");
    push_str(&mut failure, v.detail.as_str());
    push_str(&mut failure, " (printer: ");
    push_str(&mut failure, printer);
    push_str(&mut failure, ")");
    record_check(
        events,
        job_id,
        v.success,
        "spooler_queue",
        evidence.as_str(),
        completed.as_str(),
        failure.as_str(),
    )
}

/// The PowerShell looking for the EventID 307 message of `printer` logged
/// since `start` (`yyyy-MM-ddTHH:mm:ss`, UTC).
pub open spec fn message_query_text(start: Seq<char>, printer: Seq<char>) -> Seq<char> {
    "Get-WinEvent -LogName 'Microsoft-Windows-PrintService/Operational' -MaxEvents 20 -ErrorAction SilentlyContinue | Where-Object { $_.Id -eq 307 -and $_.TimeCreated -ge '"@
        + start + "' -and $_.Message -match '"@ + escape_quotes(printer)
        + "' } | Select-Object -First 1 -ExpandProperty Message"@
}

/// Builds the EventID 307 message query.
pub fn message_query(start: &str, printer: &str) -> (r: String)
    ensures
        r@ == message_query_text(start@, printer@),
{
    let p = chars_of(printer);
    let mut s = String::new();
    push_str(
        &mut s,
        "Get-WinEvent -LogName 'Microsoft-Windows-PrintService/Operational' -MaxEvents 20 -ErrorAction SilentlyContinue | Where-Object { $_.Id -eq 307 -and $_.TimeCreated -ge '",
    );
    push_str(&mut s, start);
    push_str(&mut s, "' -and $_.Message -match '");
    push_escaped(&mut s, p.as_slice());
    push_str(&mut s, "' } | Select-Object -First 1 -ExpandProperty Message");
    s
}

/// The PowerShell looking for an error event (372 or 842) of `printer`
/// logged since `start`.
pub open spec fn error_query_text(start: Seq<char>, printer: Seq<char>) -> Seq<char> {
    "Get-WinEvent -LogName 'Microsoft-Windows-PrintService/Operational' -MaxEvents 10 -ErrorAction SilentlyContinue | Where-Object { ($_.Id -eq 372 -or $_.Id -eq 842) -and $_.TimeCreated -ge '"@
        + start + "' -and $_.Message -match '"@ + escape_quotes(printer)
        + "' } | Select-Object -First 1 -ExpandProperty Message"@
}

/// Builds the error-event query run when no EventID 307 came in time.
pub fn error_query(start: &str, printer: &str) -> (r: String)
    ensures
        r@ == error_query_text(start@, printer@),
{
    let p = chars_of(printer);
    let mut s = String::new();
    push_str(
        &mut s,
        "Get-WinEvent -LogName 'Microsoft-Windows-PrintService/Operational' -MaxEvents 10 -ErrorAction SilentlyContinue | Where-Object { ($_.Id -eq 372 -or $_.Id -eq 842) -and $_.TimeCreated -ge '",
    );
    push_str(&mut s, start);
    push_str(&mut s, "' -and $_.Message -match '");
    push_escaped(&mut s, p.as_slice());
    push_str(&mut s, "' } | Select-Object -First 1 -ExpandProperty Message");
    s
}

/// Acts on one poll of the EventID 307 message (trimmed): a message
/// confirms the job (`Verified` by `eventid_307` with at most its first 200
/// characters as evidence, then `Completed`); none leaves the events as
/// they were and returns `false`.
pub fn record_message(events: &mut EventEmitter, job_id: &str, display: &str, message: &str) -> (r: bool)
    ensures
        r == (message@.len() > 0),
        !r ==> final(events).emitted() == old(events).emitted(),
        r ==> {
            let n = old(events).emitted().len();
            let ev = "EventID 307: "@ + prefix_upto(message@, 200);
            &&& final(events).emitted().len() == n + 2
            &&& final(events).emitted().take(n as int) == old(events).emitted()
            &&& event_is(final(events).emitted()[n as int], job_id@, PrintStage::Verified, true, ev, "eventid_307"@, ev)
            &&& event_is(
                final(events).emitted()[n + 1 as int],
                job_id@,
                PrintStage::Completed,
                true,
                "Printed on "@ + display@ + " (EventID 307 confirmed)"@,
                Seq::<char>::empty(),
                Seq::<char>::empty(),
            )
        },
{
    if message.is_empty() {
        return false;
    }
    let mut ev = String::new();
    push_str(&mut ev, "EventID 307: ");
    let head = take_chars(message, 200);
    push_str(&mut ev, head.as_str());
    let mut completed = String::new();
    push_str(&mut completed, "Printed on ");
    push_str(&mut completed, display);
    push_str(&mut completed, " (EventID 307 confirmed)");
    let _ = record_check(events, job_id, true, "eventid_307", ev.as_str(), completed.as_str(), "");
    true
}

/// The failure when no EventID 307 came within the minute: with at most
/// the first 200 characters of an error event's message, when there is one.
pub open spec fn no_event_text(printer: Seq<char>, error_message: Seq<char>) -> Seq<char> {
    if error_message.len() == 0 {
        "No EventID 307 within 60s for "@ + printer
    } else {
        "No EventID 307 within 60s for "@ + printer + ". Error: "@ + prefix_upto(error_message, 200)
    }
}

/// Fails a job that saw no EventID 307 in time: emits the `Failed` event
/// (method `eventid_307`) and returns its detail.
pub fn record_no_event(events: &mut EventEmitter, job_id: &str, printer: &str, error_message: &str) -> (r: String)
    ensures
        r@ == no_event_text(printer@, error_message@),
        final(events).emitted().len() == old(events).emitted().len() + 1,
        final(events).emitted().drop_last() == old(events).emitted(),
        event_is(final(events).emitted().last(), job_id@, PrintStage::Failed, false, r@, "eventid_307"@, r@),
{
    let mut d = String::new();
    push_str(&mut d, "No EventID 307 within 60s for ");
    push_str(&mut d, printer);
    if !error_message.is_empty() {
        push_str(&mut d, ". Error: ");
        let head = take_chars(error_message, 200);
        push_str(&mut d, head.as_str());
    }
    events.emit_unverified(job_id, d.as_str(), "eventid_307", d.as_str());
    d
}

} // verus!
