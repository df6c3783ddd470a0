//! The local printers and their queues. The system calls (PowerShell's
//! `Get-Printer` and `Get-PrintJob`, SumatraPDF) exist only on Windows and
//! are made by the application; on every other system the functions here
//! are what the client gets: no printers, an empty queue, and PDF printing
//! refused. What the Windows queries return is read by the verified
//! decisions below.
use vstd::prelude::*;

use crate::text::{
    chars_of, contains, contains_exec, escape_quotes, lines, lines_of, push_chars, push_dec,
    push_escaped, push_str, string_of, trim, trim_chars, views,
};

verus! {

/// Printer metadata returned by the `/api/printers` endpoint.
#[derive(Debug, Clone)]
pub struct PrinterInfo {
    pub name: String,
    pub driver: String,
    pub status: String,
    pub jobs: u64,
    pub is_target: bool,
}

/// List available printers on this system: none without the Windows spooler.
pub fn list_printers() -> (r: Result<Vec<PrinterInfo>, String>)
    ensures
        r matches Ok(v) && v@.len() == 0,
{
    Ok(Vec::new())
}

/// The name of a `Get-Printer` `PrinterStatus` code.
pub open spec fn status_name(code: Option<u64>) -> Seq<char> {
    match code {
        Some(0) => "normal"@,
        Some(1) => "paused"@,
        Some(2) => "error"@,
        Some(3) => "pending deletion"@,
        Some(4) => "paper jam"@,
        Some(5) => "paper out"@,
        Some(6) => "manual feed"@,
        Some(7) => "paper problem"@,
        Some(8) => "offline"@,
        _ => "unknown"@,
    }
}

/// A printer as `Get-Printer` describes it: missing names read `Unknown`,
/// a missing driver `-`, a missing job count 0.
pub fn printer_info(name: Option<&str>, driver: Option<&str>, status: Option<u64>, jobs: Option<u64>) -> (r: PrinterInfo)
    ensures
        r.name@ == (match name {
            Some(n) => n@,
            None => "Unknown"@,
        }),
        r.driver@ == (match driver {
            Some(d) => d@,
            None => "-"@,
        }),
        r.status@ == status_name(status),
        r.jobs == (match jobs {
            Some(j) => j,
            None => 0,
        }),
        !r.is_target,
{
    let status_text: &str = match status {
        Some(0) => "normal",
        Some(1) => "paused",
        Some(2) => "error",
        Some(3) => "pending deletion",
        Some(4) => "paper jam",
        Some(5) => "paper out",
        Some(6) => "manual feed",
        Some(7) => "paper problem",
        Some(8) => "offline",
        _ => "unknown",
    };
    PrinterInfo {
        name: match name {
            Some(n) => n.to_owned(),
            None => "Unknown".to_owned(),
        },
        driver: match driver {
            Some(d) => d.to_owned(),
            None => "-".to_owned(),
        },
        status: status_text.to_owned(),
        jobs: match jobs {
            Some(j) => j,
            None => 0,
        },
        is_target: false,
    }
}

/// Send a PDF file to a printer: only the Windows spooler can.
pub fn print_pdf(printer: &str, pdf_path: &str) -> (r: Result<(), String>)
    ensures
        r matches Err(e) && e@ == "printing is only supported on Windows"@,
{
    Err("printing is only supported on Windows".to_owned())
}

/// The PowerShell fallback that prints `path` on `printer` through the
/// shell's `PrintTo` verb, when SumatraPDF is not installed.
pub open spec fn print_to_script_text(path: Seq<char>, printer: Seq<char>) -> Seq<char> {
    "Start-Process -FilePath '"@ + escape_quotes(path) + "' -Verb PrintTo -ArgumentList '\""@
        + escape_quotes(printer) + "\"' -Wait -WindowStyle Hidden"@
}

/// Builds the `PrintTo` fallback script.
pub fn print_to_script(path: &str, printer: &str) -> (r: String)
    ensures
        r@ == print_to_script_text(path@, printer@),
{
    let p = chars_of(path);
    let q = chars_of(printer);
    let mut s = String::new();
    push_str(&mut s, "Start-Process -FilePath '");
    push_escaped(&mut s, p.as_slice());
    push_str(&mut s, "' -Verb PrintTo -ArgumentList '\"");
    push_escaped(&mut s, q.as_slice());
    push_str(&mut s, "\"' -Wait -WindowStyle Hidden");
    s
}

/// Result of verifying that the spooler actually processed a print job.
#[derive(Debug, Clone)]
pub struct PrintVerification {
    pub success: bool,
    pub spooler_status: String,
    pub detail: String,
}

/// Check that a printer is ready to accept jobs: always, without the
/// Windows spooler to ask.
pub fn check_printer_ready(printer_name: &str) -> (r: Result<(), String>)
    ensures
        r is Ok,
{
    Ok(())
}

/// What a `Get-Printer` `PrinterStatus` code means for a job about to be sent.
pub open spec fn readiness_text(printer: Seq<char>, code: u64) -> Option<Seq<char>> {
    let quoted = "printer '"@ + printer + "'"@;
    if code == 1 {
        Some(quoted + " is paused"@)
    } else if code == 2 {
        Some(quoted + " has error"@)
    } else if code == 4 {
        Some(quoted + " has paper jam"@)
    } else if code == 5 {
        Some(quoted + " is out of paper"@)
    } else if code == 7 {
        Some(quoted + " has paper problem"@)
    } else if code == 8 {
        Some(quoted + " is offline"@)
    } else {
        None
    }
}

/// Whether a printer with `Get-Printer` status `code` may be sent a job:
/// paused, error, paper jam, out of paper, paper problem and offline are
/// refused with a message; every other status passes.
pub fn readiness(printer_name: &str, code: u64) -> (r: Result<(), String>)
    ensures
        match readiness_text(printer_name@, code) {
            None => r is Ok,
            Some(m) => r matches Err(e) && e@ == m,
        },
        r is Err <==> (code == 1 || code == 2 || code == 4 || code == 5 || code == 7 || code == 8),
{
    proof {
        law_readiness_refuses_exactly(printer_name@, code);
    }
    let what: &str = if code == 1 {
        " is paused"
    } else if code == 2 {
        " has error"
    } else if code == 4 {
        " has paper jam"
    } else if code == 5 {
        " is out of paper"
    } else if code == 7 {
        " has paper problem"
    } else if code == 8 {
        " is offline"
    } else {
        return Ok(());
    };
    let mut s = String::new();
    push_str(&mut s, "printer '");
    push_str(&mut s, printer_name);
    push_str(&mut s, "'");
    push_str(&mut s, what);
    Err(s)
}

/// Verify that the spooler processed a job: without the Windows spooler
/// there is nothing to wait for.
pub fn verify_print_completion(printer_name: &str, timeout_secs: u64) -> (r: Result<PrintVerification, String>)
    ensures
        r matches Ok(v) && v.success && v.spooler_status@ == "completed"@ && v.detail@
            == "non-Windows stub"@,
{
    Ok(
        PrintVerification {
            success: true,
            spooler_status: "completed".to_owned(),
            detail: "non-Windows stub".to_owned(),
        },
    )
}

/// A job left in a printer's queue: its `JobStatus` and `DocumentName`.
#[derive(Debug, Clone)]
pub struct QueuedJob {
    pub status: String,
    pub document: String,
}

/// The first queued job whose status contains `Error` or `Offline`.
pub open spec fn first_failing(jobs: Seq<QueuedJob>) -> Option<QueuedJob>
    decreases jobs.len(),
{
    if jobs.len() == 0 {
        None
    } else if contains(jobs[0].status@, "Error"@) || contains(jobs[0].status@, "Offline"@) {
        Some(jobs[0])
    } else {
        first_failing(jobs.drop_first())
    }
}

/// Reads one `Get-PrintJob` poll of the printer's queue after a job was
/// spooled. An empty queue means the job reached the printer; a job whose
/// status contains `Error` or `Offline` fails the verification; once
/// `past_deadline`, the jobs still queued fail it; otherwise `None`: poll
/// again.
pub fn queue_verdict(queue_empty: bool, jobs: &Vec<QueuedJob>, past_deadline: bool, timeout_secs: u64) -> (r: Option<PrintVerification>)
    ensures
        queue_empty ==> (r matches Some(v) && v.success && v.spooler_status@ == "completed"@
            && v.detail@ == "job left print queue"@),
        !queue_empty ==> match first_failing(jobs@) {
            Some(j) => r matches Some(v) && !v.success && v.spooler_status@ == "error"@ && v.detail@
                == "spooler status: "@ + j.status@ + " (document: "@ + j.document@ + ")"@,
            None => if past_deadline {
                r matches Some(v) && !v.success && v.spooler_status@ == "timeout"@ && v.detail@
                    == dec_count(jobs@.len()) + " job(s) still in queue after "@ + dec_count(
                    timeout_secs as nat,
                ) + "s"@
            } else {
                r is None
            },
        },
        !queue_empty && (exists|i: int|
            0 <= i < jobs@.len() && (contains(#[trigger] jobs@[i].status@, "Error"@) || contains(
                jobs@[i].status@,
                "Offline"@,
            ))) ==> (r matches Some(v) && !v.success && v.spooler_status@ == "error"@),
{
    proof {
        law_failing_job_is_found(jobs@);
    }
    if queue_empty {
        return Some(
            PrintVerification {
                success: true,
                spooler_status: "completed".to_owned(),
                detail: "job left print queue".to_owned(),
            },
        );
    }
    let err = chars_of("Error");
    let off = chars_of("Offline");
    let mut i: usize = 0;
    assert(jobs@.subrange(0, jobs@.len() as int) =~= jobs@);
    while i < jobs.len()
        invariant
            i <= jobs@.len(),
            !queue_empty,
            err@ == "Error"@,
            off@ == "Offline"@,
            first_failing(jobs@) == first_failing(jobs@.subrange(i as int, jobs@.len() as int)),
        decreases jobs@.len() - i,
    {
        let ghost rest = jobs@.subrange(i as int, jobs@.len() as int);
        assert(rest[0] == jobs@[i as int]);
        assert(rest.drop_first() =~= jobs@.subrange(i + 1, jobs@.len() as int));
        let st = chars_of(jobs[i].status.as_str());
        if contains_exec(st.as_slice(), err.as_slice()) || contains_exec(st.as_slice(), off.as_slice()) {
            let mut d = String::new();
            push_str(&mut d, "spooler status: ");
            push_str(&mut d, jobs[i].status.as_str());
            push_str(&mut d, " (document: ");
            push_str(&mut d, jobs[i].document.as_str());
            push_str(&mut d, ")");
            return Some(PrintVerification { success: false, spooler_status: "error".to_owned(), detail: d });
        }
        i = i + 1;
    }
    if past_deadline {
        let mut d = String::new();
        push_dec(&mut d, jobs.len() as u64);
        push_str(&mut d, " job(s) still in queue after ");
        push_dec(&mut d, timeout_secs);
        push_str(&mut d, "s");
        Some(PrintVerification { success: false, spooler_status: "timeout".to_owned(), detail: d })
    } else {
        None
    }
}

/// A status code is refused before a job is sent exactly when it is one of
/// paused (1), error (2), paper jam (4), out of paper (5), paper problem (7)
/// or offline (8); the refusal names the printer and the condition.
pub proof fn law_readiness_refuses_exactly(printer: Seq<char>, code: u64)
    ensures
        readiness_text(printer, code) is Some <==> (code == 1 || code == 2 || code == 4 || code == 5
            || code == 7 || code == 8),
        code == 1 ==> readiness_text(printer, code) == Some("printer '"@ + printer + "' is paused"@),
        code == 2 ==> readiness_text(printer, code) == Some("printer '"@ + printer + "' has error"@),
        code == 4 ==> readiness_text(printer, code) == Some(
            "printer '"@ + printer + "' has paper jam"@,
        ),
        code == 5 ==> readiness_text(printer, code) == Some(
            "printer '"@ + printer + "' is out of paper"@,
        ),
        code == 7 ==> readiness_text(printer, code) == Some(
            "printer '"@ + printer + "' has paper problem"@,
        ),
        code == 8 ==> readiness_text(printer, code) == Some("printer '"@ + printer + "' is offline"@),
{
    reveal_strlit("'");
    let quoted = "printer '"@ + printer + "'"@;
    if code == 1 {
        reveal_strlit(" is paused");
        reveal_strlit("' is paused");
        assert(quoted + " is paused"@ =~= "printer '"@ + printer + "' is paused"@);
    } else if code == 2 {
        reveal_strlit(" has error");
        reveal_strlit("' has error");
        assert(quoted + " has error"@ =~= "printer '"@ + printer + "' has error"@);
    } else if code == 4 {
        reveal_strlit(" has paper jam");
        reveal_strlit("' has paper jam");
        assert(quoted + " has paper jam"@ =~= "printer '"@ + printer + "' has paper jam"@);
    } else if code == 5 {
        reveal_strlit(" is out of paper");
        reveal_strlit("' is out of paper");
        assert(quoted + " is out of paper"@ =~= "printer '"@ + printer + "' is out of paper"@);
    } else if code == 7 {
        reveal_strlit(" has paper problem");
        reveal_strlit("' has paper problem");
        assert(quoted + " has paper problem"@ =~= "printer '"@ + printer + "' has paper problem"@);
    } else if code == 8 {
        reveal_strlit(" is offline");
        reveal_strlit("' is offline");
        assert(quoted + " is offline"@ =~= "printer '"@ + printer + "' is offline"@);
    }
}

/// The status listed for a printer names its `Get-Printer` `PrinterStatus`
/// code as the Win32 table does: 0 normal, 1 paused, 2 error, 3 pending
/// deletion, 4 paper jam, 5 paper out, 6 manual feed, 7 paper problem,
/// 8 offline; any other code, or none, is unknown.
pub proof fn law_status_names(code: Option<u64>)
    ensures
        code == Some(0u64) ==> status_name(code) == "normal"@,
        code == Some(1u64) ==> status_name(code) == "paused"@,
        code == Some(2u64) ==> status_name(code) == "error"@,
        code == Some(3u64) ==> status_name(code) == "pending deletion"@,
        code == Some(4u64) ==> status_name(code) == "paper jam"@,
        code == Some(5u64) ==> status_name(code) == "paper out"@,
        code == Some(6u64) ==> status_name(code) == "manual feed"@,
        code == Some(7u64) ==> status_name(code) == "paper problem"@,
        code == Some(8u64) ==> status_name(code) == "offline"@,
        (code is None || code->0 > 8) ==> status_name(code) == "unknown"@,
{
}

/// The refusal of a printer that is not ready names the same condition as
/// its listed status: for paused and offline the message ends in "is" and
/// the status name, for error, paper jam and paper problem in "has" and the
/// status name; out of paper is listed as "paper out".
pub proof fn law_refusal_agrees_with_status(printer: Seq<char>, code: u64)
    ensures
        (code == 1 || code == 8) ==> readiness_text(printer, code) == Some(
            "printer '"@ + printer + "' is "@ + status_name(Some(code)),
        ),
        (code == 2 || code == 4 || code == 7) ==> readiness_text(printer, code) == Some(
            "printer '"@ + printer + "' has "@ + status_name(Some(code)),
        ),
        code == 5 ==> readiness_text(printer, code) == Some(
            "printer '"@ + printer + "' is out of paper"@,
        ) && status_name(Some(code)) == "paper out"@,
{
    law_readiness_refuses_exactly(printer, code);
    let pre = "printer '"@ + printer;
    if code == 1 {
        reveal_strlit("' is paused");
        reveal_strlit("' is ");
        reveal_strlit("paused");
        assert(pre + "' is paused"@ =~= pre + "' is "@ + "paused"@);
    } else if code == 8 {
        reveal_strlit("' is offline");
        reveal_strlit("' is ");
        reveal_strlit("offline");
        assert(pre + "' is offline"@ =~= pre + "' is "@ + "offline"@);
    } else if code == 2 {
        reveal_strlit("' has error");
        reveal_strlit("' has ");
        reveal_strlit("error");
        assert(pre + "' has error"@ =~= pre + "' has "@ + "error"@);
    } else if code == 4 {
        reveal_strlit("' has paper jam");
        reveal_strlit("' has ");
        reveal_strlit("paper jam");
        assert(pre + "' has paper jam"@ =~= pre + "' has "@ + "paper jam"@);
    } else if code == 7 {
        reveal_strlit("' has paper problem");
        reveal_strlit("' has ");
        reveal_strlit("paper problem");
        assert(pre + "' has paper problem"@ =~= pre + "' has "@ + "paper problem"@);
    }
}

/// A job whose status contains `Error` or `Offline` is never passed over:
/// the first failing job exists and comes no later than it, and every job
/// before the one found is not failing. With no such job there is none.
pub proof fn law_failing_job_is_found(jobs: Seq<QueuedJob>)
    ensures
        (exists|i: int|
            0 <= i < jobs.len() && (contains(#[trigger] jobs[i].status@, "Error"@) || contains(
                jobs[i].status@,
                "Offline"@,
            ))) <==> first_failing(jobs) is Some,
        first_failing(jobs) matches Some(j) ==> exists|k: int|
            0 <= k < jobs.len() && #[trigger] jobs[k] == j && (contains(j.status@, "Error"@)
                || contains(j.status@, "Offline"@)) && forall|m: int|
                0 <= m < k ==> !contains(#[trigger] jobs[m].status@, "Error"@) && !contains(
                    jobs[m].status@,
                    "Offline"@,
                ),
    decreases jobs.len(),
{
    if jobs.len() > 0 {
        let rest = jobs.drop_first();
        law_failing_job_is_found(rest);
        if contains(jobs[0].status@, "Error"@) || contains(jobs[0].status@, "Offline"@) {
            assert(jobs[0] == jobs[0]);
        } else {
            if exists|i: int|
                0 <= i < jobs.len() && (contains(#[trigger] jobs[i].status@, "Error"@) || contains(
                    jobs[i].status@,
                    "Offline"@,
                )) {
                let i = choose|i: int|
                    0 <= i < jobs.len() && (contains(#[trigger] jobs[i].status@, "Error"@)
                        || contains(jobs[i].status@, "Offline"@));
                assert(i > 0);
                assert(rest[i - 1] == jobs[i]);
            }
            if first_failing(rest) is Some {
                let j = first_failing(rest)->0;
                let k = choose|k: int|
                    0 <= k < rest.len() && #[trigger] rest[k] == j && (contains(j.status@, "Error"@)
                        || contains(j.status@, "Offline"@)) && forall|m: int|
                        0 <= m < k ==> !contains(#[trigger] rest[m].status@, "Error"@) && !contains(
                            rest[m].status@,
                            "Offline"@,
                        );
                assert(jobs[k + 1] == j);
                assert forall|m: int| 0 <= m < k + 1 implies !contains(
                    #[trigger] jobs[m].status@,
                    "Error"@,
                ) && !contains(jobs[m].status@, "Offline"@) by {
                    if m > 0 {
                        assert(jobs[m] == rest[m - 1]);
                    }
                }
                assert(rest[k] == jobs[k + 1]);
            } else {
                assert forall|i: int| 0 <= i < jobs.len() implies !(contains(
                    #[trigger] jobs[i].status@,
                    "Error"@,
                ) || contains(jobs[i].status@, "Offline"@)) by {
                    if i > 0 {
                        assert(jobs[i] == rest[i - 1]);
                    }
                }
            }
        }
    }
}

/// Decimal rendering of a count.
pub open spec fn dec_count(n: nat) -> Seq<char> {
    crate::text::dec(n)
}

/// Query the print queue of a printer: empty without the Windows spooler.
pub fn get_print_queue(printer_name: &str) -> (r: Result<Vec<String>, String>)
    ensures
        r matches Ok(v) && v@.len() == 0,
{
    Ok(Vec::new())
}

/// The document names that `Get-PrintJob ... -ExpandProperty DocumentName`
/// printed: its lines trimmed, blank ones left out.
pub open spec fn queue_documents_of(stdout: Seq<char>) -> Seq<Seq<char>> {
    trim_all(lines(stdout)).filter(nonblank())
}

/// Each line trimmed.
pub open spec fn trim_all(ls: Seq<Seq<char>>) -> Seq<Seq<char>> {
    ls.map_values(|l: Seq<char>| trim(l))
}

/// Lines with at least one character.
pub open spec fn nonblank() -> spec_fn(Seq<char>) -> bool {
    |l: Seq<char>| l.len() > 0
}

/// Reads the document names of a printer's queue from the query output.
pub fn queue_documents(stdout: &str) -> (r: Vec<String>)
    ensures
        r@.map_values(|s: String| s@) == queue_documents_of(stdout@),
{
    let cs = chars_of(stdout);
    let ls = lines_of(cs.as_slice());
    let ghost all = trim_all(views(ls@));
    let ghost keep = nonblank();
    let mut out: Vec<String> = Vec::new();
    let mut i: usize = 0;
    assert(all.take(0).filter(keep) =~= Seq::<Seq<char>>::empty()) by {
        reveal_with_fuel(Seq::<_>::filter, 1);
    }
    while i < ls.len()
        invariant
            i <= ls@.len(),
            all == trim_all(views(ls@)),
            keep == nonblank(),
            out@.map_values(|s: String| s@) == all.take(i as int).filter(keep),
        decreases ls@.len() - i,
    {
        reveal_with_fuel(Seq::<_>::filter, 1);
        assert(all.take(i + 1).drop_last() =~= all.take(i as int));
        let t = trim_chars(ls[i].as_slice());
        assert(all[i as int] == t@);
        if t.len() > 0 {
            let s = string_of(t.as_slice());
            out.push(s);
            assert(out@.map_values(|s: String| s@) =~= out@.drop_last().map_values(|s: String| s@).push(t@));
        }
        i = i + 1;
    }
    assert(all.take(ls@.len() as int) =~= all);
    assert(all.filter(keep) == queue_documents_of(stdout@));
    out
}

} // verus!
