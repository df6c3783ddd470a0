//! RAW Windows-spooler backend: the job payload is already the printer's
//! native language and goes to the local printer unchanged, N copies as the
//! payload written N times in one spooler document. Delivery is verified
//! through the Print Service log: EventID 307 ("document printed") with the
//! exact byte count, or EventID 842 when the print processor refused RAW
//! data. This module holds the pure part: names, byte counts, the PowerShell
//! queries, the parsers of their output and the verification decision.
use vstd::prelude::*;

use crate::text::{
    chars_of, dec, eq_str, escape_quotes, lines, lines_of, parse_u64, parse_uint, push_chars,
    push_dec, push_escaped, push_str, split_once, split_once_exec, string_of, trim, trim_chars,
    trim_str, views,
};

verus! {

/// `print_backend` config value selecting this backend.
pub const BACKEND_NAME: &'static str = "windows_spooler_raw";

/// Verification method recorded on the job (same as `windows_spooler`).
pub const VERIFICATION_METHOD: &'static str = "eventid_307";

/// How long the Print Service log is polled for the job, in seconds.
pub const VERIFY_TIMEOUT_SECS: u64 = 60;

#[derive(Debug)]
pub struct WindowsSpoolerRaw {
    target_printer: String,
}

impl WindowsSpoolerRaw {
    pub closed spec fn target(&self) -> Seq<char> {
        self.target_printer@
    }

    pub fn new(target_printer: String) -> (r: Self)
        ensures
            r.target() == target_printer@,
    {
        WindowsSpoolerRaw { target_printer }
    }

    /// The configured local Windows printer (used when a job carries no
    /// per-job printer name).
    pub fn target_printer(&self) -> (r: &str)
        ensures
            r@ == self.target(),
    {
        self.target_printer.as_str()
    }

    /// The backend's name, as the `print_backend` setting spells it.
    pub fn name(&self) -> (r: &'static str)
        ensures
            r@ == "windows_spooler_raw"@,
    {
        "windows_spooler_raw"
    }

    /// The printer a job goes to: its own printer name, or the configured
    /// target when the job carries none.
    pub fn printer_for(&self, job_printer: &str) -> (r: String)
        ensures
            r@ == (if job_printer@.len() == 0 { self.target() } else { job_printer@ }),
    {
        if job_printer.is_empty() {
            self.target_printer.clone()
        } else {
            job_printer.to_owned()
        }
    }
}

/// The copy count a backend honours: 0 counts as 1.
pub open spec fn copies_at_least_one(copies: u32) -> nat {
    if copies == 0 {
        1
    } else {
        copies as nat
    }
}

/// Bytes the spooler must report for a job: the payload once per copy.
pub open spec fn spooled_bytes(payload_len: nat, copies: u32) -> nat {
    payload_len * copies_at_least_one(copies)
}

/// Bytes the spooler must report for a job: the payload once per copy
/// (a copy count of 0 is treated as 1, like every other backend).
pub fn expected_spooled_bytes(payload_len: usize, copies: u32) -> (r: u64)
    requires
        spooled_bytes(payload_len as nat, copies) <= u64::MAX,
    ensures
        r == spooled_bytes(payload_len as nat, copies),
{
    let c: u64 = if copies == 0 { 1 } else { copies as u64 };
    (payload_len as u64) * c
}

/// The spooler document name: the job's document name trimmed, or a
/// DevBridge fallback carrying the job id when that leaves nothing.
pub open spec fn document_name_for(document_name: Seq<char>, job_id: Seq<char>) -> Seq<char> {
    let t = trim(document_name);
    if t.len() == 0 {
        "DevBridge "@ + job_id
    } else {
        t
    }
}

/// Spooler document name: the job's document name, or a DevBridge fallback
/// carrying the job id when the application sent none.
pub fn spool_document_name(document_name: &str, job_id: &str) -> (r: String)
    ensures
        r@ == document_name_for(document_name@, job_id@),
{
    let trimmed = trim_str(document_name);
    if trimmed.len() == 0 {
        let mut s = String::new();
        push_str(&mut s, "DevBridge ");
        push_str(&mut s, job_id);
        s
    } else {
        string_of(trimmed.as_slice())
    }
}

/// The one-line PowerShell of [`spooler_events_query`].
pub open spec fn events_query(printer: Seq<char>, spool_job_id: u32, since_local: Seq<char>) -> Seq<char> {
    let job = dec(spool_job_id as nat);
    let p = escape_quotes(printer);
    "$ev = Get-WinEvent -FilterHashtable @{LogName='Microsoft-Windows-PrintService/Operational'; Id=@(307,842); StartTime=[datetime]'"@
        + since_local
        + "'} -ErrorAction SilentlyContinue; $ev | Where-Object { $_.Id -eq 307 -and [string]$_.Properties[0].Value -eq '"@
        + job + "' -and [string]$_.Properties[4].Value -eq '"@ + p
        + "' } | Select-Object -First 1 | ForEach-Object { '307|{0}|{1}' -f $_.Properties[6].Value, $_.Properties[5].Value }; $ev | Where-Object { $_.Id -eq 842 -and [string]$_.Properties[0].Value -eq '"@
        + job + "' -and [string]$_.Properties[2].Value -eq '"@ + p
        + "' -and [string]$_.Properties[5].Value -ne '0' } | Select-Object -First 1 | ForEach-Object { '842|{0}|{1}' -f $_.Properties[5].Value, $_.Properties[1].Value }"@
}

/// One-line PowerShell printing `307|<bytes>|<port>` and/or
/// `842|<win32 error>|<print processor>` for spooler job `spool_job_id` on
/// `printer`, or nothing while neither happened. Reads the event
/// `Properties` (307: [0] job, [4] printer, [5] port, [6] bytes;
/// 842: [0] job, [1] processor, [2] printer, [5] error), never the
/// localized message. Only events newer than `since_local` (local time,
/// `yyyy-MM-ddTHH:mm:ss`) count, so a recycled job id cannot match an old one.
pub fn spooler_events_query(printer: &str, spool_job_id: u32, since_local: &str) -> (r: String)
    ensures
        r@ == events_query(printer@, spool_job_id, since_local@),
{
    let p = chars_of(printer);
    let mut s = String::new();
    push_str(
        &mut s,
        "$ev = Get-WinEvent -FilterHashtable @{LogName='Microsoft-Windows-PrintService/Operational'; Id=@(307,842); StartTime=[datetime]'",
    );
    push_str(&mut s, since_local);
    push_str(
        &mut s,
        "'} -ErrorAction SilentlyContinue; $ev | Where-Object { $_.Id -eq 307 -and [string]$_.Properties[0].Value -eq '",
    );
    push_dec(&mut s, spool_job_id as u64);
    push_str(&mut s, "' -and [string]$_.Properties[4].Value -eq '");
    push_escaped(&mut s, p.as_slice());
    push_str(
        &mut s,
        "' } | Select-Object -First 1 | ForEach-Object { '307|{0}|{1}' -f $_.Properties[6].Value, $_.Properties[5].Value }; $ev | Where-Object { $_.Id -eq 842 -and [string]$_.Properties[0].Value -eq '",
    );
    push_dec(&mut s, spool_job_id as u64);
    push_str(&mut s, "' -and [string]$_.Properties[2].Value -eq '");
    push_escaped(&mut s, p.as_slice());
    push_str(
        &mut s,
        "' -and [string]$_.Properties[5].Value -ne '0' } | Select-Object -First 1 | ForEach-Object { '842|{0}|{1}' -f $_.Properties[5].Value, $_.Properties[1].Value }",
    );
    s
}

/// The PowerShell of [`eventid_307_query`].
pub open spec fn eventid_query(printer: Seq<char>, spool_job_id: u32, since_local: Seq<char>) -> Seq<char> {
    "Get-WinEvent -FilterHashtable @{LogName='Microsoft-Windows-PrintService/Operational'; Id=307; StartTime=[datetime]'"@
        + since_local
        + "'} -ErrorAction SilentlyContinue | Where-Object { [string]$_.Properties[0].Value -eq '"@
        + dec(spool_job_id as nat) + "' -and [string]$_.Properties[4].Value -eq '"@
        + escape_quotes(printer)
        + "' } | Select-Object -First 1 | ForEach-Object { '{0}|{1}' -f $_.Properties[6].Value, $_.Properties[5].Value }"@
}

/// PowerShell that prints `<bytes>|<port>` for the EventID 307 of spooler
/// job `spool_job_id` on `printer`, or nothing while it has not happened.
/// Only events newer than `since_local` (local time, `yyyy-MM-ddTHH:mm:ss`)
/// are considered so a recycled spooler job id can never match an old event.
pub fn eventid_307_query(printer: &str, spool_job_id: u32, since_local: &str) -> (r: String)
    ensures
        r@ == eventid_query(printer@, spool_job_id, since_local@),
{
    let p = chars_of(printer);
    let mut s = String::new();
    push_str(
        &mut s,
        "Get-WinEvent -FilterHashtable @{LogName='Microsoft-Windows-PrintService/Operational'; Id=307; StartTime=[datetime]'",
    );
    push_str(&mut s, since_local);
    push_str(&mut s, "'} -ErrorAction SilentlyContinue | Where-Object { [string]$_.Properties[0].Value -eq '");
    push_dec(&mut s, spool_job_id as u64);
    push_str(&mut s, "' -and [string]$_.Properties[4].Value -eq '");
    push_escaped(&mut s, p.as_slice());
    push_str(
        &mut s,
        "' } | Select-Object -First 1 | ForEach-Object { '{0}|{1}' -f $_.Properties[6].Value, $_.Properties[5].Value }",
    );
    s
}

} // verus!

verus! {

// ---------------------------------------------------------------------------
// Reading the query output
// ---------------------------------------------------------------------------

/// The first line that is not blank, trimmed.
pub open spec fn first_nonblank(ls: Seq<Seq<char>>) -> Option<Seq<char>>
    decreases ls.len(),
{
    if ls.len() == 0 {
        None
    } else if trim(ls[0]).len() > 0 {
        Some(trim(ls[0]))
    } else {
        first_nonblank(ls.drop_first())
    }
}

/// What [`parse_eventid_307_line`] reads from the output: the first
/// non-blank line split at its first `|` into a byte count and a port.
pub open spec fn eventid_307_line(stdout: Seq<char>) -> Option<(u64, Seq<char>)> {
    match first_nonblank(lines(stdout)) {
        None => None,
        Some(l) => match split_once(l, '|') {
            None => None,
            Some((bytes, port)) => match parse_uint(trim(bytes), u64::MAX as nat) {
                None => None,
                Some(n) => Some((n as u64, trim(port))),
            },
        },
    }
}

/// Parse the `<bytes>|<port>` line printed by [`eventid_307_query`].
/// `None` = no (parseable) event yet.
pub fn parse_eventid_307_line(stdout: &str) -> (r: Option<(u64, String)>)
    ensures
        match eventid_307_line(stdout@) {
            None => r is None,
            Some((n, port)) => r matches Some((b, p)) && b == n && p@ == port,
        },
{
    let chars = chars_of(stdout);
    let ls = lines_of(chars.as_slice());
    let ghost all = views(ls@);
    let mut i: usize = 0;
    assert(all.subrange(0, all.len() as int) =~= all);
    while i < ls.len()
        invariant
            i <= ls@.len(),
            all == views(ls@),
            all == lines(stdout@),
            first_nonblank(all) == first_nonblank(all.subrange(i as int, all.len() as int)),
        decreases ls@.len() - i,
    {
        let ghost rest = all.subrange(i as int, all.len() as int);
        assert(rest[0] == ls@[i as int]@);
        let t = trim_chars(ls[i].as_slice());
        if t.len() > 0 {
            match split_once_exec(t.as_slice(), '|') {
                None => {
                    return None;
                },
                Some((bytes, port)) => {
                    let b = trim_chars(bytes.as_slice());
                    match parse_u64(b.as_slice()) {
                        None => {
                            return None;
                        },
                        Some(n) => {
                            let p = trim_chars(port.as_slice());
                            return Some((n, string_of(p.as_slice())));
                        },
                    }
                },
            }
        }
        assert(rest.drop_first() =~= all.subrange(i + 1, all.len() as int));
        i = i + 1;
    }
    None
}

/// A trimmed line `<id>|<number>|<text>` as `splitn(3, '|')` reads it: the
/// id and the text trimmed, the number parsed as a `u64`.
pub open spec fn event_fields(line: Seq<char>) -> Option<(Seq<char>, u64, Seq<char>)> {
    match split_once(trim(line), '|') {
        None => None,
        Some((id, rest)) => match split_once(rest, '|') {
            None => None,
            Some((num, text)) => match parse_uint(trim(num), u64::MAX as nat) {
                None => None,
                Some(n) => Some((trim(id), n as u64, trim(text))),
            },
        },
    }
}

/// The first line reporting event `id`: its number and text.
pub open spec fn first_event(ls: Seq<Seq<char>>, id: Seq<char>) -> Option<(u64, Seq<char>)>
    decreases ls.len(),
{
    if ls.len() == 0 {
        None
    } else {
        match event_fields(ls[0]) {
            Some((i, n, t)) => if i == id {
                Some((n, t))
            } else {
                first_event(ls.drop_first(), id)
            },
            None => first_event(ls.drop_first(), id),
        }
    }
}

/// What the Print Service log says about our RAW job so far.
#[derive(Debug, Clone, PartialEq, Eq)]
pub enum SpoolerOutcome {
    /// EventID 307: the port monitor delivered `bytes` bytes via `port`.
    Printed { bytes: u64, port: String },
    /// EventID 842 with a non-zero Win32 error: the print processor refused
    /// the job (e.g. a v4 XPS driver cannot take RAW data, error 87).
    ProcessorFailed { code: u64, processor: String },
    /// Nothing yet.
    Pending,
}

/// The outcome that the query output reports: a 307 anywhere wins; else
/// the first 842; else nothing yet.
pub open spec fn outcome_is(r: SpoolerOutcome, stdout: Seq<char>) -> bool {
    let ls = lines(stdout);
    match first_event(ls, "307"@) {
        Some((n, t)) => r matches SpoolerOutcome::Printed { bytes, port } && bytes == n && port@ == t,
        None => match first_event(ls, "842"@) {
            Some((n, t)) => r matches SpoolerOutcome::ProcessorFailed { code, processor } && code
                == n && processor@ == t,
            None => r is Pending,
        },
    }
}

fn event_fields_exec(line: &[char]) -> (r: Option<(Vec<char>, u64, Vec<char>)>)
    ensures
        match event_fields(line@) {
            None => r is None,
            Some((id, n, text)) => r matches Some((a, b, c)) && a@ == id && b == n && c@ == text,
        },
{
    let t = trim_chars(line);
    match split_once_exec(t.as_slice(), '|') {
        None => None,
        Some((id, rest)) => match split_once_exec(rest.as_slice(), '|') {
            None => None,
            Some((num, text)) => {
                let numt = trim_chars(num.as_slice());
                match parse_u64(numt.as_slice()) {
                    None => None,
                    Some(n) => Some((trim_chars(id.as_slice()), n, trim_chars(text.as_slice()))),
                }
            },
        },
    }
}

/// Parse [`spooler_events_query`] output. A 307 wins over an 842 (the job
/// was delivered after all); unparseable lines are ignored.
pub fn parse_spooler_outcome(stdout: &str) -> (r: SpoolerOutcome)
    ensures
        outcome_is(r, stdout@),
{
    let chars = chars_of(stdout);
    let ls = lines_of(chars.as_slice());
    let ghost all = views(ls@);
    let mut failed: Option<(u64, Vec<char>)> = None;
    let mut i: usize = 0;
    assert(all.subrange(0, all.len() as int) =~= all);
    while i < ls.len()
        invariant
            i <= ls@.len(),
            all == views(ls@),
            all == lines(stdout@),
            first_event(all, "307"@) == first_event(all.subrange(i as int, all.len() as int), "307"@),
            match failed {
                None => first_event(all, "842"@) == first_event(
                    all.subrange(i as int, all.len() as int),
                    "842"@,
                ),
                Some((c, p)) => first_event(all, "842"@) == Some((c, p@)),
            },
        decreases ls@.len() - i,
    {
        let ghost rest = all.subrange(i as int, all.len() as int);
        assert(rest[0] == ls@[i as int]@);
        assert(rest.drop_first() =~= all.subrange(i + 1, all.len() as int));
        match event_fields_exec(ls[i].as_slice()) {
            None => {},
            Some((id, n, text)) => {
                if eq_str(id.as_slice(), "307") {
                    return SpoolerOutcome::Printed { bytes: n, port: string_of(text.as_slice()) };
                }
                if eq_str(id.as_slice(), "842") && failed.is_none() {
                    failed = Some((n, text));
                }
            },
        }
        i = i + 1;
    }
    match failed {
        Some((code, p)) => SpoolerOutcome::ProcessorFailed { code, processor: string_of(p.as_slice()) },
        None => SpoolerOutcome::Pending,
    }
}

} // verus!

verus! {

// ---------------------------------------------------------------------------
// Verification
// ---------------------------------------------------------------------------

/// The detail of an EventID 842 print-processor refusal.
pub open spec fn refusal_detail(spool_job_id: u32, printer: Seq<char>, processor: Seq<char>, code: u64) -> Seq<char> {
    "EventID 842: print processor "@ + processor + " refused RAW job "@ + dec(spool_job_id as nat)
        + " on "@ + printer + " (Win32 error "@ + dec(code as nat)
        + ") — the printer's driver cannot take RAW data; use a v3 driver (winprint)"@
}

/// Failure detail for an EventID 842 print-processor error.
pub fn processor_failure_detail(spool_job_id: u32, printer: &str, processor: &str, code: u64) -> (r: String)
    ensures
        r@ == refusal_detail(spool_job_id, printer@, processor@, code),
{
    let mut s = String::new();
    push_str(&mut s, "EventID 842: print processor ");
    push_str(&mut s, processor);
    push_str(&mut s, " refused RAW job ");
    push_dec(&mut s, spool_job_id as u64);
    push_str(&mut s, " on ");
    push_str(&mut s, printer);
    push_str(&mut s, " (Win32 error ");
    push_dec(&mut s, code);
    push_str(&mut s, ") — the printer's driver cannot take RAW data; use a v3 driver (winprint)");
    s
}

/// The evidence line of a confirmed EventID 307.
pub open spec fn evidence_307(spool_job_id: u32, printer: Seq<char>, port: Seq<char>, bytes: u64, expected: u64) -> Seq<char> {
    "EventID 307: spooler job "@ + dec(spool_job_id as nat) + " on "@ + printer + " via port "@ + port
        + ", "@ + dec(bytes as nat) + " bytes (expected "@ + dec(expected as nat) + ")"@
}

/// Evidence line stored on the job for a confirmed EventID 307.
pub fn eventid_307_evidence(spool_job_id: u32, printer: &str, port: &str, bytes: u64, expected: u64) -> (r: String)
    ensures
        r@ == evidence_307(spool_job_id, printer@, port@, bytes, expected),
{
    let mut s = String::new();
    push_str(&mut s, "EventID 307: spooler job ");
    push_dec(&mut s, spool_job_id as u64);
    push_str(&mut s, " on ");
    push_str(&mut s, printer);
    push_str(&mut s, " via port ");
    push_str(&mut s, port);
    push_str(&mut s, ", ");
    push_dec(&mut s, bytes);
    push_str(&mut s, " bytes (expected ");
    push_dec(&mut s, expected);
    push_str(&mut s, ")");
    s
}

/// Why a byte count other than the spooled one fails the job.
pub open spec fn mismatch_reason(actual: u64, expected: u64) -> Seq<char> {
    "EventID 307 reports "@ + dec(actual as nat) + " bytes but "@ + dec(expected as nat)
        + " bytes were spooled — RAW stream altered or truncated"@
}

/// The byte count the spooler printed must be exactly what we spooled;
/// anything else means the RAW stream was altered or truncated.
pub fn check_spooled_bytes(actual: u64, expected: u64) -> (r: Result<(), String>)
    ensures
        r is Ok <==> actual == expected,
        r matches Err(e) ==> e@ == mismatch_reason(actual, expected),
{
    if actual == expected {
        Ok(())
    } else {
        let mut s = String::new();
        push_str(&mut s, "EventID 307 reports ");
        push_dec(&mut s, actual);
        push_str(&mut s, " bytes but ");
        push_dec(&mut s, expected);
        push_str(&mut s, " bytes were spooled — RAW stream altered or truncated");
        Err(s)
    }
}

/// PowerShell printing the spooler's status of job `spool_job_id` on `printer`.
pub open spec fn status_query_text(printer: Seq<char>, spool_job_id: u32) -> Seq<char> {
    "Get-PrintJob -PrinterName '"@ + escape_quotes(printer) + "' -ID "@ + dec(spool_job_id as nat)
        + " -ErrorAction SilentlyContinue | ForEach-Object { [string]$_.JobStatus }"@
}

/// The query for the spooler status reported when verification times out.
pub fn job_status_query(printer: &str, spool_job_id: u32) -> (r: String)
    ensures
        r@ == status_query_text(printer@, spool_job_id),
{
    let p = chars_of(printer);
    let mut s = String::new();
    push_str(&mut s, "Get-PrintJob -PrinterName '");
    push_escaped(&mut s, p.as_slice());
    push_str(&mut s, "' -ID ");
    push_dec(&mut s, spool_job_id as u64);
    push_str(&mut s, " -ErrorAction SilentlyContinue | ForEach-Object { [string]$_.JobStatus }");
    s
}

/// The detail of a verification that saw no EventID 307 in time; `status`
/// is what the spooler still says of the job (nothing: it is gone).
pub open spec fn timeout_detail(spool_job_id: u32, printer: Seq<char>, status: Seq<char>) -> Seq<char> {
    "No EventID 307 within "@ + dec(VERIFY_TIMEOUT_SECS as nat) + "s for RAW job "@ + dec(
        spool_job_id as nat,
    ) + " on "@ + printer + " (spooler status: "@ + (if status.len() == 0 {
        "job gone"@
    } else {
        status
    }) + ")"@
}

/// What one poll of the Print Service log leads to.
#[derive(Debug)]
pub enum RawPoll {
    /// Verification is over: `Ok` delivered, `Err` with the failure detail.
    Done(Result<(), String>),
    /// Nothing logged yet; poll again.
    Wait,
    /// Nothing logged and the verification window is over: fetch the
    /// spooler's status of the job and fail with [`record_timeout`].
    TimedOut,
}

/// The `Completed` detail of a delivered RAW job.
pub open spec fn printed_detail(display: Seq<char>, bytes: u64) -> Seq<char> {
    "Printed RAW on "@ + display + " (EventID 307, "@ + dec(bytes as nat) + " B)"@
}

/// Acts on one parsed poll of the Print Service log for spooler job
/// `spool_job_id` on `printer` (shown as `display`), `expected` bytes long:
/// an 842 fails the job at once, a 307 with the exact byte count confirms
/// it (a `Verified` then a `Completed` event), a 307 with another count
/// fails it; otherwise it waits, or reports the timeout once
/// `past_deadline`.
pub fn record_outcome(
    events: &mut crate::job_event::EventEmitter,
    job_id: &str,
    outcome: &SpoolerOutcome,
    spool_job_id: u32,
    printer: &str,
    display: &str,
    expected: u64,
    past_deadline: bool,
) -> (r: RawPoll)
    ensures
        match *outcome {
            SpoolerOutcome::ProcessorFailed { code, processor } => {
                let d = refusal_detail(spool_job_id, printer@, processor@, code);
                &&& r matches RawPoll::Done(Err(e)) && e@ == d
                &&& final(events).emitted().len() == old(events).emitted().len() + 1
                &&& final(events).emitted().drop_last() == old(events).emitted()
                &&& crate::job_event::event_is(
                    final(events).emitted().last(),
                    job_id@,
                    crate::job_event::PrintStage::Failed,
                    false,
                    d,
                    "eventid_307"@,
                    d,
                )
            },
            SpoolerOutcome::Printed { bytes, port } => {
                let ev = evidence_307(spool_job_id, printer@, port@, bytes, expected);
                let n = old(events).emitted().len();
                if bytes == expected {
                    &&& r matches RawPoll::Done(Ok(()))
                    &&& final(events).emitted().len() == n + 2
                    &&& final(events).emitted().take(n as int) == old(events).emitted()
                    &&& crate::job_event::event_is(
                        final(events).emitted()[n as int],
                        job_id@,
                        crate::job_event::PrintStage::Verified,
                        true,
                        ev,
                        "eventid_307"@,
                        ev,
                    )
                    &&& crate::job_event::event_is(
                        final(events).emitted()[n + 1 as int],
                        job_id@,
                        crate::job_event::PrintStage::Completed,
                        true,
                        printed_detail(display@, bytes),
                        Seq::<char>::empty(),
                        Seq::<char>::empty(),
                    )
                } else {
                    &&& r matches RawPoll::Done(Err(e)) && e@ == mismatch_reason(bytes, expected)
                    &&& final(events).emitted().len() == n + 1
                    &&& final(events).emitted().drop_last() == old(events).emitted()
                    &&& crate::job_event::event_is(
                        final(events).emitted().last(),
                        job_id@,
                        crate::job_event::PrintStage::Failed,
                        false,
                        mismatch_reason(bytes, expected),
                        "eventid_307"@,
                        ev,
                    )
                }
            },
            SpoolerOutcome::Pending => {
                &&& final(events).emitted() == old(events).emitted()
                &&& if past_deadline {
                    r is TimedOut
                } else {
                    r is Wait
                }
            },
        },
{
    match outcome {
        SpoolerOutcome::ProcessorFailed { code, processor } => {
            let detail = processor_failure_detail(spool_job_id, printer, processor.as_str(), *code);
            events.emit_unverified(job_id, detail.as_str(), VERIFICATION_METHOD, detail.as_str());
            RawPoll::Done(Err(detail))
        },
        SpoolerOutcome::Printed { bytes, port } => {
            let evidence = eventid_307_evidence(spool_job_id, printer, port.as_str(), *bytes, expected);
            match check_spooled_bytes(*bytes, expected) {
                Err(reason) => {
                    events.emit_unverified(job_id, reason.as_str(), VERIFICATION_METHOD, evidence.as_str());
                    RawPoll::Done(Err(reason))
                },
                Ok(()) => {
                    let ghost n = events.emitted().len();
                    events.emit_verified(job_id, VERIFICATION_METHOD, evidence.as_str());
                    let mut d = String::new();
                    push_str(&mut d, "Printed RAW on ");
                    push_str(&mut d, display);
                    push_str(&mut d, " (EventID 307, ");
                    push_dec(&mut d, *bytes);
                    push_str(&mut d, " B)");
                    events.emit_ok(job_id, crate::job_event::PrintStage::Completed, d.as_str());
                    assert(events.emitted().take(n as int) =~= old(events).emitted());
                    assert(events.emitted()[n as int] == events.emitted().drop_last().last());
                    RawPoll::Done(Ok(()))
                },
            }
        },
        SpoolerOutcome::Pending => {
            if past_deadline {
                RawPoll::TimedOut
            } else {
                RawPoll::Wait
            }
        },
    }
}

/// Fails a job whose verification window passed without an EventID 307:
/// emits the `Failed` event and returns its detail. `status` is the
/// spooler's status of the job, trimmed.
pub fn record_timeout(
    events: &mut crate::job_event::EventEmitter,
    job_id: &str,
    spool_job_id: u32,
    printer: &str,
    status: &str,
) -> (r: String)
    ensures
        r@ == timeout_detail(spool_job_id, printer@, status@),
        final(events).emitted().len() == old(events).emitted().len() + 1,
        final(events).emitted().drop_last() == old(events).emitted(),
        crate::job_event::event_is(
            final(events).emitted().last(),
            job_id@,
            crate::job_event::PrintStage::Failed,
            false,
            r@,
            "eventid_307"@,
            r@,
        ),
{
    let mut s = String::new();
    push_str(&mut s, "No EventID 307 within ");
    push_dec(&mut s, VERIFY_TIMEOUT_SECS);
    push_str(&mut s, "s for RAW job ");
    push_dec(&mut s, spool_job_id as u64);
    push_str(&mut s, " on ");
    push_str(&mut s, printer);
    push_str(&mut s, " (spooler status: ");
    if status.is_empty() {
        push_str(&mut s, "job gone");
    } else {
        push_str(&mut s, status);
    }
    push_str(&mut s, ")");
    events.emit_unverified(job_id, s.as_str(), VERIFICATION_METHOD, s.as_str());
    s
}

} // verus!

verus! {

// ---------------------------------------------------------------------------
// Submission
// ---------------------------------------------------------------------------

/// What a RAW submission needs, settled before the payload goes to the spooler.
#[derive(Debug)]
pub struct RawSubmission {
    /// The Windows printer the payload is spooled on.
    pub printer: String,
    /// The name shown for it in events.
    pub display: String,
    /// How many times the payload is written (at least once).
    pub copies: u32,
    /// The byte count EventID 307 must report.
    pub expected: u64,
}

/// The `Sending` detail of a RAW submission.
pub open spec fn sending_detail(display: Seq<char>, payload_len: nat, copies: u32) -> Seq<char> {
    "Windows spooler RAW → "@ + display + " ("@ + dec(payload_len) + " B × "@ + dec(copies as nat) + ")"@
}

impl WindowsSpoolerRaw {
    /// Settles the printer (the job's own, else the configured target), its
    /// display name, the copy count and the expected byte count of a payload
    /// of `payload_len` bytes, and emits the `Sending` event.
    pub fn prepare(
        &self,
        job: &crate::backend::PrintJobInfo,
        payload_len: usize,
        events: &mut crate::job_event::EventEmitter,
    ) -> (r: RawSubmission)
        requires
            spooled_bytes(payload_len as nat, job.copies) <= u64::MAX,
        ensures
            r.printer@ == (if job.printer_name@.len() == 0 {
                self.target()
            } else {
                job.printer_name@
            }),
            r.display@ == crate::backend::display_for(*job, r.printer@),
            r.copies == copies_at_least_one(job.copies),
            r.expected == spooled_bytes(payload_len as nat, job.copies),
            final(events).emitted().len() == old(events).emitted().len() + 1,
            final(events).emitted().drop_last() == old(events).emitted(),
            crate::job_event::event_is(
                final(events).emitted().last(),
                job.job_id@,
                crate::job_event::PrintStage::Sending,
                true,
                sending_detail(r.display@, payload_len as nat, r.copies),
                Seq::<char>::empty(),
                Seq::<char>::empty(),
            ),
    {
        let printer = self.printer_for(job.printer_name.as_str());
        let display = job.display_name(printer.as_str());
        let copies: u32 = if job.copies == 0 { 1 } else { job.copies };
        let expected = expected_spooled_bytes(payload_len, job.copies);
        let mut d = String::new();
        push_str(&mut d, "Windows spooler RAW → ");
        push_str(&mut d, display.as_str());
        push_str(&mut d, " (");
        push_dec(&mut d, payload_len as u64);
        push_str(&mut d, " B × ");
        push_dec(&mut d, copies as u64);
        push_str(&mut d, ")");
        events.emit_ok(job.job_id.as_str(), crate::job_event::PrintStage::Sending, d.as_str());
        RawSubmission { printer, display, copies, expected }
    }
}

/// The `Sent` detail once the spooler accepted the document.
pub open spec fn spooled_detail(spool_job_id: u32, display: Seq<char>, expected: u64) -> Seq<char> {
    "Spooled as RAW job "@ + dec(spool_job_id as nat) + " on "@ + display + " ("@ + dec(expected as nat) + " B)"@
}

/// Emits the `Sent` event once the spooler accepted the document as job `spool_job_id`.
pub fn record_spooled(
    events: &mut crate::job_event::EventEmitter,
    job_id: &str,
    spool_job_id: u32,
    display: &str,
    expected: u64,
)
    ensures
        final(events).emitted().len() == old(events).emitted().len() + 1,
        final(events).emitted().drop_last() == old(events).emitted(),
        crate::job_event::event_is(
            final(events).emitted().last(),
            job_id@,
            crate::job_event::PrintStage::Sent,
            true,
            spooled_detail(spool_job_id, display@, expected),
            Seq::<char>::empty(),
            Seq::<char>::empty(),
        ),
{
    let mut d = String::new();
    push_str(&mut d, "Spooled as RAW job ");
    push_dec(&mut d, spool_job_id as u64);
    push_str(&mut d, " on ");
    push_str(&mut d, display);
    push_str(&mut d, " (");
    push_dec(&mut d, expected);
    push_str(&mut d, " B)");
    events.emit_ok(job_id, crate::job_event::PrintStage::Sent, d.as_str());
}

/// The detail of a RAW job on a system without the Windows spooler.
pub open spec fn unsupported_detail(printer: Seq<char>) -> Seq<char> {
    "print_backend \"windows_spooler_raw\" is only supported on Windows (printer "@ + printer + ")"@
}

/// RAW spooling is a winspool feature: elsewhere the job fails loudly
/// instead of pretending the label printed. Emits the `Failed` event and
/// returns its detail.
pub fn fail_without_spooler(events: &mut crate::job_event::EventEmitter, job_id: &str, printer: &str) -> (r: String)
    ensures
        r@ == unsupported_detail(printer@),
        final(events).emitted().len() == old(events).emitted().len() + 1,
        final(events).emitted().drop_last() == old(events).emitted(),
        crate::job_event::event_is(
            final(events).emitted().last(),
            job_id@,
            crate::job_event::PrintStage::Failed,
            false,
            r@,
            Seq::<char>::empty(),
            Seq::<char>::empty(),
        ),
{
    let mut d = String::new();
    push_str(&mut d, "print_backend \"windows_spooler_raw\" is only supported on Windows (printer ");
    push_str(&mut d, printer);
    push_str(&mut d, ")");
    events.emit_fail(job_id, crate::job_event::PrintStage::Failed, d.as_str());
    d
}

} // verus!
