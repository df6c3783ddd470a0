//! The decisions behind the dashboard's HTTP API: which status a request is
//! answered with and what is stored or sent back. The handlers that read the
//! job queue, touch the disk and speak HTTP feed these functions the values
//! they read and act on what comes back.
use vstd::prelude::*;

use crate::config::{ClientConfig, JobsConfig};
use crate::job::{JobMetadata, JobState};
use crate::printer::PrinterInfo;
use crate::pairing::{ClientRegistration, PairingState};
use crate::text::{
    chars_eq, chars_of, clone_opt, dec, opt_chars, parse_uint, parse_uint_exec, push_dec, push_str,
    string_of, trim, trim_str,
};
use crate::virtual_printer::{driver_name_outcome, normalize_driver_name, slug, slugify, VirtualPrinter};

verus! {

/// A refused request: the HTTP status and the text sent as `error`.
#[derive(Debug, Clone)]
pub struct ApiError {
    pub status: u16,
    pub message: String,
}

/// Whether `e` is the refusal with this status and text.
pub open spec fn error_is(e: ApiError, status: u16, message: Seq<char>) -> bool {
    e.status == status && e.message@ == message
}

fn api_error(status: u16, message: String) -> (e: ApiError)
    ensures
        e.status == status,
        e.message@ == message@,
{
    ApiError { status, message }
}

fn api_error_lit(status: u16, message: &str) -> (e: ApiError)
    ensures
        e.status == status,
        e.message@ == message@,
{
    ApiError { status, message: message.to_owned() }
}

// ---------------------------------------------------------------------------
// Reprinting a job
// ---------------------------------------------------------------------------

/// How long after its creation a job may be printed again: 48 hours, in seconds.
pub const REPRINT_WINDOW_SECS: i64 = 172800;

/// The refusal text for a job `age` seconds old, past the reprint window.
pub open spec fn too_old_message(age: int) -> Seq<char> {
    "This job is too old to reprint ("@ + dec((age / 3600) as nat)
        + " hours, limit is 48). The print file has been cleaned up."@
}

/// First step of a reprint: the original job, given what the queue returned
/// for it (`None` when the dashboard has no queue) and the time `now`.
/// A job older than the reprint window is refused with 422.
pub fn reprint_original(lookup: Option<Result<Option<JobMetadata>, String>>, now: i64) -> (r: Result<
    JobMetadata,
    ApiError,
>)
    ensures
        match lookup {
            None => r matches Err(e) && error_is(e, 500, "no queue"@),
            Some(Err(m)) => r matches Err(e) && error_is(e, 500, m@),
            Some(Ok(None)) => r matches Err(e) && error_is(e, 404, "job not found"@),
            Some(Ok(Some(j))) => if now - j.created_at > REPRINT_WINDOW_SECS {
                r matches Err(e) && error_is(e, 422, too_old_message(now - j.created_at))
            } else {
                r == Ok::<JobMetadata, ApiError>(j)
            },
        },
{
    match lookup {
        None => Err(api_error_lit(500, "no queue")),
        Some(Err(m)) => Err(api_error(500, m)),
        Some(Ok(None)) => Err(api_error_lit(404, "job not found")),
        Some(Ok(Some(j))) => {
            let age: i128 = now as i128 - j.created_at as i128;
            if age > REPRINT_WINDOW_SECS as i128 {
                let age_u: u64 = age as u64;
                let mut msg = String::new();
                push_str(&mut msg, "This job is too old to reprint (");
                push_dec(&mut msg, age_u / 3600);
                push_str(&mut msg, " hours, limit is 48). The print file has been cleaned up.");
                Err(api_error(422, msg))
            } else {
                Ok(j)
            }
        },
    }
}

/// Second step of a reprint: the spool file to copy, given what the queue
/// returned for the job's spool path and whether that file is on disk
/// (`exists` is read only when there is a path).
pub fn reprint_spool(spool: Result<Option<String>, String>, exists: bool) -> (r: Result<
    String,
    ApiError,
>)
    ensures
        match spool {
            Err(m) => r matches Err(e) && error_is(e, 500, m@),
            Ok(None) => r matches Err(e) && error_is(
                e,
                410,
                "Print file has been cleaned up and is no longer available for reprint. Re-send the print from the original application."@,
            ),
            Ok(Some(p)) => if exists {
                r == Ok::<String, ApiError>(p)
            } else {
                r matches Err(e) && error_is(
                    e,
                    410,
                    "Print file was deleted from disk. Re-send the print from the original application."@,
                )
            },
        },
{
    match spool {
        Err(m) => Err(api_error(500, m)),
        Ok(None) => Err(
            api_error_lit(
                410,
                "Print file has been cleaned up and is no longer available for reprint. Re-send the print from the original application.",
            ),
        ),
        Ok(Some(p)) => if exists {
            Ok(p)
        } else {
            Err(
                api_error_lit(
                    410,
                    "Print file was deleted from disk. Re-send the print from the original application.",
                ),
            )
        },
    }
}

/// The job a reprint queues: the original's document and settings under a
/// new id, queued afresh at `now` with no retries and no error.
pub fn reprint_metadata(original: &JobMetadata, new_job_id: String, now: i64) -> (r: JobMetadata)
    ensures
        r.job_id == new_job_id,
        r.document_name@ == original.document_name@,
        r.target_printer@ == original.target_printer@,
        opt_chars(r.target_client_id) == opt_chars(original.target_client_id),
        r.copies == original.copies,
        r.paper_size@ == original.paper_size@,
        r.duplex == original.duplex,
        r.color == original.color,
        r.payload_size == original.payload_size,
        r.payload_sha256@ == original.payload_sha256@,
        r.state == JobState::Queued,
        r.retry_count == 0,
        r.error_detail@ == Seq::<char>::empty(),
        opt_chars(r.requesting_user) == opt_chars(original.requesting_user),
        r.created_at == now,
        r.updated_at == now,
{
    JobMetadata {
        job_id: new_job_id,
        document_name: original.document_name.clone(),
        target_printer: original.target_printer.clone(),
        target_client_id: clone_opt(&original.target_client_id),
        copies: original.copies,
        paper_size: original.paper_size.clone(),
        duplex: original.duplex,
        color: original.color,
        payload_size: original.payload_size,
        payload_sha256: original.payload_sha256.clone(),
        state: JobState::Queued,
        retry_count: 0,
        error_detail: String::new(),
        requesting_user: clone_opt(&original.requesting_user),
        created_at: now,
        updated_at: now,
    }
}

/// Where the reprint's own copy of the spool file goes:
/// `<spool path>.reprint-<new job id>`.
pub fn reprint_copy_path(spool_path: &str, new_job_id: &str) -> (r: String)
    ensures
        r@ == spool_path@ + ".reprint-"@ + new_job_id@,
{
    let mut s = String::new();
    push_str(&mut s, spool_path);
    push_str(&mut s, ".reprint-");
    push_str(&mut s, new_job_id);
    s
}

/// The refusal when the spool file could not be copied.
pub fn copy_failed(error: &str) -> (e: ApiError)
    ensures
        error_is(e, 500, "failed to copy spool file: "@ + error@),
{
    let mut s = String::new();
    push_str(&mut s, "failed to copy spool file: ");
    push_str(&mut s, error);
    api_error(500, s)
}

// ---------------------------------------------------------------------------
// Approving and rejecting clients
// ---------------------------------------------------------------------------

/// The client a pairing decision is about, given what the queue returned
/// for it (`None` when the dashboard has no queue).
pub fn client_lookup(lookup: Option<Result<Option<ClientRegistration>, String>>) -> (r: Result<
    ClientRegistration,
    ApiError,
>)
    ensures
        match lookup {
            None => r matches Err(e) && error_is(e, 500, "no queue available"@),
            Some(Err(_)) => r matches Err(e) && error_is(e, 500, "database error"@),
            Some(Ok(None)) => r matches Err(e) && error_is(e, 404, "client not found"@),
            Some(Ok(Some(c))) => r == Ok::<ClientRegistration, ApiError>(c),
        },
{
    match lookup {
        None => Err(api_error_lit(500, "no queue available")),
        Some(Err(_)) => Err(api_error_lit(500, "database error")),
        Some(Ok(None)) => Err(api_error_lit(404, "client not found")),
        Some(Ok(Some(c))) => Ok(c),
    }
}

/// What approving a client does.
#[derive(Debug)]
pub enum Approval {
    /// The client was approved before: nothing changes.
    AlreadyApproved,
    /// Set the client `Approved`, and create this virtual printer when the
    /// client asked for one.
    Approve(Option<VirtualPrinter>),
}

/// The driver override a client registered, as applied to its virtual
/// printer: normalised by [`normalize_driver_name`]; an override that is
/// blank or that it refuses leaves the default driver.
pub open spec fn applied_driver(d: Option<String>) -> Option<Seq<char>> {
    match driver_name_outcome(opt_chars(d)) {
        Ok(o) => o,
        Err(_) => None,
    }
}

/// The virtual printer created for an approved client that asked for one
/// named `name`: slugged for IPP, paired to the client, with the client's
/// driver override applied.
pub open spec fn approval_printer(
    v: VirtualPrinter,
    client: ClientRegistration,
    name: Seq<char>,
    client_id: Seq<char>,
    vp_id: String,
    now: i64,
) -> bool {
    &&& v.id == vp_id
    &&& v.display_name@ == name
    &&& v.ipp_name@ == slug(name)
    &&& opt_chars(v.paired_client_id) == Some(client_id)
    &&& opt_chars(v.driver) == applied_driver(client.virtual_printer_driver)
    &&& v.created_at == now
    &&& v.updated_at == now
}

/// Plan the approval of `client` (registered as `client_id`); `vp_id` and
/// `now` are the id and time a new virtual printer gets.
pub fn plan_approval(client: &ClientRegistration, client_id: &str, vp_id: String, now: i64) -> (r:
    Approval)
    ensures
        (r is AlreadyApproved) == (client.pairing_state == PairingState::Approved),
        r matches Approval::Approve(vp) ==> match client.virtual_printer_name {
            None => vp is None,
            Some(name) => vp matches Some(v) && approval_printer(
                v,
                *client,
                name@,
                client_id@,
                vp_id,
                now,
            ),
        },
{
    if client.pairing_state == PairingState::Approved {
        return Approval::AlreadyApproved;
    }
    match &client.virtual_printer_name {
        None => Approval::Approve(None),
        Some(name) => {
            let raw: Option<&str> = match &client.virtual_printer_driver {
                Some(d) => Some(d.as_str()),
                None => None,
            };
            let driver: Option<String> = match normalize_driver_name(raw) {
                Ok(o) => o,
                Err(_) => None,
            };
            let vp = VirtualPrinter {
                id: vp_id,
                display_name: name.clone(),
                ipp_name: slugify(name.as_str()),
                paired_client_id: Some(client_id.to_owned()),
                driver,
                created_at: now,
                updated_at: now,
            };
            Approval::Approve(Some(vp))
        },
    }
}

/// The PowerShell command that registers a server-side Windows printer for
/// a virtual printer created on approval.
pub fn approval_printer_command(display_name: &str) -> (r: String)
    ensures
        r@ == "Add-Printer -Name '"@ + display_name@
            + "' -DriverName 'Generic / Text Only' -PortName 'NUL'"@,
{
    let mut s = String::new();
    push_str(&mut s, "Add-Printer -Name '");
    push_str(&mut s, display_name);
    push_str(&mut s, "' -DriverName 'Generic / Text Only' -PortName 'NUL'");
    s
}

// ---------------------------------------------------------------------------
// Creating and editing virtual printers
// ---------------------------------------------------------------------------

/// A new, unpaired virtual printer named `display_name` with surrounding
/// whitespace removed; `None` (answered 400) when nothing is left.
pub fn new_virtual_printer(display_name: &str, id: String, now: i64) -> (r: Option<VirtualPrinter>)
    ensures
        (r is None) == (trim(display_name@).len() == 0),
        r matches Some(v) ==> {
            &&& v.id == id
            &&& v.display_name@ == trim(display_name@)
            &&& v.ipp_name@ == slug(trim(display_name@))
            &&& v.paired_client_id is None
            &&& v.driver is None
            &&& v.created_at == now
            &&& v.updated_at == now
        },
{
    let t = trim_str(display_name);
    if t.len() == 0 {
        return None;
    }
    let name = string_of(t.as_slice());
    let ipp_name = slugify(name.as_str());
    Some(
        VirtualPrinter {
            id,
            display_name: name,
            ipp_name,
            paired_client_id: None,
            driver: None,
            created_at: now,
            updated_at: now,
        },
    )
}

/// Apply an edit to a virtual printer: a new display name that differs from
/// the current one renames it (and re-slugs its IPP name), and a given
/// pairing replaces the current one (`Some(None)` unpairs). Returns whether
/// it was renamed.
pub fn apply_vp_update(
    vp: &mut VirtualPrinter,
    display_name: Option<String>,
    paired_client_id: Option<Option<String>>,
) -> (renamed: bool)
    ensures
        renamed == (match display_name {
            Some(n) => n@ != old(vp).display_name@,
            None => false,
        }),
        renamed ==> match display_name {
            Some(n) => final(vp).display_name@ == n@ && final(vp).ipp_name@ == slug(n@),
            None => false,
        },
        !renamed ==> final(vp).display_name == old(vp).display_name && final(vp).ipp_name
            == old(vp).ipp_name,
        final(vp).paired_client_id == (match paired_client_id {
            Some(c) => c,
            None => old(vp).paired_client_id,
        }),
        final(vp).id == old(vp).id,
        final(vp).driver == old(vp).driver,
        final(vp).created_at == old(vp).created_at,
        final(vp).updated_at == old(vp).updated_at,
{
    let mut renamed = false;
    match display_name {
        Some(n) => {
            let new_chars = chars_of(n.as_str());
            let old_chars = chars_of(vp.display_name.as_str());
            if !chars_eq(new_chars.as_slice(), old_chars.as_slice()) {
                vp.ipp_name = slugify(n.as_str());
                vp.display_name = n;
                renamed = true;
            }
        },
        None => {},
    }
    match paired_client_id {
        Some(c) => {
            vp.paired_client_id = c;
        },
        None => {},
    }
    renamed
}

/// The PowerShell script that moves the server-side Windows printer of a
/// renamed virtual printer from `old_name` to `new_name`.
pub fn rename_printer_script(old_name: &str, new_name: &str) -> (r: String)
    ensures
        r@ == "$old = Get-Printer -Name '"@ + old_name@
            + "' -ErrorAction SilentlyContinue; if ($old) { Remove-Printer -Name '"@ + old_name@
            + "' }; $port = 'http://127.0.0.1:631/ipp/print'; rundll32.exe printui.dll,PrintUIEntry /if /b \""@
            + new_name@ + "\" /r \"$port\" /m \"Microsoft IPP Class Driver\" /q"@,
{
    let mut s = String::new();
    push_str(&mut s, "$old = Get-Printer -Name '");
    push_str(&mut s, old_name);
    push_str(&mut s, "' -ErrorAction SilentlyContinue; if ($old) { Remove-Printer -Name '");
    push_str(&mut s, old_name);
    push_str(
        &mut s,
        "' }; $port = 'http://127.0.0.1:631/ipp/print'; rundll32.exe printui.dll,PrintUIEntry /if /b \"",
    );
    push_str(&mut s, new_name);
    push_str(&mut s, "\" /r \"$port\" /m \"Microsoft IPP Class Driver\" /q");
    s
}

// ---------------------------------------------------------------------------
// Listing jobs
// ---------------------------------------------------------------------------

/// How many jobs a listing holds when the request names no valid `limit`.
pub const DEFAULT_JOB_LIMIT: usize = 100;

/// The `limit` of a job listing: the query parameter read as `usize`, or
/// 100 when it is absent or not a number.
pub open spec fn job_limit(param: Option<Seq<char>>) -> nat {
    match param {
        Some(p) => match parse_uint(p, usize::MAX as nat) {
            Some(v) => v,
            None => DEFAULT_JOB_LIMIT as nat,
        },
        None => DEFAULT_JOB_LIMIT as nat,
    }
}

/// Read the `limit` query parameter of a job listing.
pub fn parse_limit(param: Option<&str>) -> (r: usize)
    ensures
        r as nat == job_limit(match param {
            Some(p) => Some(p@),
            None => None,
        }),
{
    match param {
        Some(p) => {
            let cs = chars_of(p);
            match parse_uint_exec(cs.as_slice(), usize::MAX as u64) {
                Some(v) => v as usize,
                None => DEFAULT_JOB_LIMIT,
            }
        },
        None => DEFAULT_JOB_LIMIT,
    }
}

/// Whether a job requested by `user` passes the listing's user filter.
pub open spec fn user_passes(user: Option<String>, filter: Option<Seq<char>>) -> bool {
    match filter {
        None => true,
        Some(f) => opt_chars(user) == Some(f),
    }
}

/// The indices of the first `n` jobs that pass the filter, in order.
pub open spec fn passing(jobs: Seq<JobMetadata>, filter: Option<Seq<char>>, n: int) -> Seq<usize>
    decreases n,
{
    if n <= 0 {
        Seq::empty()
    } else {
        let prev = passing(jobs, filter, n - 1);
        if user_passes(jobs[n - 1].requesting_user, filter) {
            prev.push((n - 1) as usize)
        } else {
            prev
        }
    }
}

/// At most the first `limit` elements of `s`.
pub open spec fn at_most(s: Seq<usize>, limit: nat) -> Seq<usize> {
    if s.len() <= limit {
        s
    } else {
        s.take(limit as int)
    }
}

/// The jobs a listing shows, by index: those requested by `filter_user`
/// (all when there is no filter), in queue order, at most `limit` of them.
pub open spec fn listed_jobs(jobs: Seq<JobMetadata>, filter: Option<Seq<char>>, limit: nat) -> Seq<
    usize,
> {
    at_most(passing(jobs, filter, jobs.len() as int), limit)
}

/// A job listing shows only jobs that pass its user filter, in queue order
/// without repeats, never more than its limit, and every passing job when
/// fewer than the limit pass.
pub proof fn law_listing_respects_filter_and_limit(jobs: Seq<JobMetadata>, filter: Option<Seq<char>>, limit: nat)
    requires
        jobs.len() <= usize::MAX,
    ensures
        listed_jobs(jobs, filter, limit).len() <= limit,
        forall|k: int|
            0 <= k < listed_jobs(jobs, filter, limit).len() ==> #[trigger] listed_jobs(jobs, filter, limit)[k]
                < jobs.len() && user_passes(jobs[listed_jobs(jobs, filter, limit)[k] as int].requesting_user, filter),
        forall|a: int, b: int|
            0 <= a < b < listed_jobs(jobs, filter, limit).len() ==> #[trigger] listed_jobs(jobs, filter, limit)[a]
                < #[trigger] listed_jobs(jobs, filter, limit)[b],
        listed_jobs(jobs, filter, limit).len() < limit ==> forall|i: int|
            0 <= i < jobs.len() && #[trigger] user_passes(jobs[i].requesting_user, filter) ==> listed_jobs(
                jobs,
                filter,
                limit,
            ).contains(i as usize),
{
    lemma_passing(jobs, filter, jobs.len() as int);
    let m = passing(jobs, filter, jobs.len() as int);
    let l = listed_jobs(jobs, filter, limit);
    if m.len() > limit {
        assert forall|k: int| 0 <= k < l.len() implies l[k] == m[k] by {}
    }
    if l.len() < limit {
        assert(l == m);
        assert forall|i: int| 0 <= i < jobs.len() && #[trigger] user_passes(jobs[i].requesting_user, filter) implies l.contains(
            i as usize,
        ) by {
            let k = choose|k: int| 0 <= k < m.len() && m[k] == i as usize;
            assert(l[k] == i as usize);
        }
    }
}

/// The passing indices below `n` are the increasing list of exactly the
/// jobs below `n` that pass.
proof fn lemma_passing(jobs: Seq<JobMetadata>, filter: Option<Seq<char>>, n: int)
    requires
        0 <= n <= jobs.len(),
        jobs.len() <= usize::MAX,
    ensures
        forall|k: int|
            0 <= k < passing(jobs, filter, n).len() ==> #[trigger] passing(jobs, filter, n)[k] < n
                && user_passes(jobs[passing(jobs, filter, n)[k] as int].requesting_user, filter),
        forall|a: int, b: int|
            0 <= a < b < passing(jobs, filter, n).len() ==> #[trigger] passing(jobs, filter, n)[a]
                < #[trigger] passing(jobs, filter, n)[b],
        forall|i: int|
            0 <= i < n && #[trigger] user_passes(jobs[i].requesting_user, filter) ==> exists|k: int|
                0 <= k < passing(jobs, filter, n).len() && passing(jobs, filter, n)[k] == i as usize,
    decreases n,
{
    if n > 0 {
        lemma_passing(jobs, filter, n - 1);
        let prev = passing(jobs, filter, n - 1);
        let cur = passing(jobs, filter, n);
        if user_passes(jobs[n - 1].requesting_user, filter) {
            assert(cur == prev.push((n - 1) as usize));
            assert forall|k: int| 0 <= k < cur.len() implies #[trigger] cur[k] < n && user_passes(
                jobs[cur[k] as int].requesting_user,
                filter,
            ) by {
                if k < prev.len() {
                    assert(cur[k] == prev[k]);
                }
            }
            assert forall|a: int, b: int| 0 <= a < b < cur.len() implies #[trigger] cur[a] < #[trigger] cur[b] by {
                assert(cur[a] == prev[a]);
                if b < prev.len() {
                    assert(cur[b] == prev[b]);
                }
            }
            assert forall|i: int| 0 <= i < n && #[trigger] user_passes(jobs[i].requesting_user, filter) implies exists|
                k: int,
            | 0 <= k < cur.len() && cur[k] == i as usize by {
                if i < n - 1 {
                    let k = choose|k: int| 0 <= k < prev.len() && prev[k] == i as usize;
                    assert(cur[k] == prev[k]);
                } else {
                    assert(cur[prev.len() as int] == (n - 1) as usize);
                }
            }
        } else {
            assert(cur == prev);
        }
    }
}

/// Pick the jobs of a listing; returns their indices in `jobs`.
pub fn select_jobs(jobs: &Vec<JobMetadata>, filter_user: Option<&str>, limit: usize) -> (r: Vec<
    usize,
>)
    ensures
        r@ == listed_jobs(
            jobs@,
            match filter_user {
                Some(u) => Some(u@),
                None => None,
            },
            limit as nat,
        ),
{
    let ghost filter = match filter_user {
        Some(u) => Some(u@),
        None => None,
    };
    let fchars: Option<Vec<char>> = match filter_user {
        Some(u) => Some(chars_of(u)),
        None => None,
    };
    let mut r: Vec<usize> = Vec::new();
    let mut i: usize = 0;
    while i < jobs.len()
        invariant
            i <= jobs@.len(),
            filter == (match filter_user {
                Some(u) => Some(u@),
                None => None::<Seq<char>>,
            }),
            match fchars {
                Some(f) => filter == Some(f@),
                None => filter is None,
            },
            r@ == at_most(passing(jobs@, filter, i as int), limit as nat),
        decreases jobs@.len() - i,
    {
        let pass = match &fchars {
            None => true,
            Some(f) => match &jobs[i].requesting_user {
                Some(u) => {
                    let uc = chars_of(u.as_str());
                    chars_eq(uc.as_slice(), f.as_slice())
                },
                None => false,
            },
        };
        let ghost before = passing(jobs@, filter, i as int);
        assert(pass == user_passes(jobs@[i as int].requesting_user, filter));
        if pass {
            if r.len() < limit {
                r.push(i);
            }
            proof {
                let after = before.push(i);
                if before.len() >= limit {
                    assert(after.take(limit as int) =~= before.take(limit as int));
                }
            }
        }
        i = i + 1;
    }
    r
}

/// The name a job's state is listed under.
pub open spec fn state_name(s: JobState) -> Seq<char> {
    match s {
        JobState::Queued => "queued"@,
        JobState::Downloading => "downloading"@,
        JobState::Printing => "printing"@,
        JobState::Completed => "completed"@,
        JobState::Failed => "failed"@,
        JobState::Cancelled => "cancelled"@,
    }
}

/// The `status` text of a listed job: its state's name in lower case.
pub fn job_status_name(s: JobState) -> (r: &'static str)
    ensures
        r@ == state_name(s),
{
    match s {
        JobState::Queued => "queued",
        JobState::Downloading => "downloading",
        JobState::Printing => "printing",
        JobState::Completed => "completed",
        JobState::Failed => "failed",
        JobState::Cancelled => "cancelled",
    }
}

// ---------------------------------------------------------------------------
// Printers and the target printer
// ---------------------------------------------------------------------------

/// The printer a server lists: its target printer, if one is set.
pub fn server_printers(target: &str) -> (r: Vec<PrinterInfo>)
    ensures
        (r@.len() == 0) == (target@.len() == 0),
        r@.len() <= 1,
        r@.len() == 1 ==> {
            &&& r[0].name@ == target@
            &&& r[0].driver@ == "-"@
            &&& r[0].status@ == "unknown"@
            &&& r[0].jobs == 0
            &&& r[0].is_target
        },
{
    let mut r: Vec<PrinterInfo> = Vec::new();
    if target.unicode_len() > 0 {
        r.push(
            PrinterInfo {
                name: target.to_owned(),
                driver: "-".to_owned(),
                status: "unknown".to_owned(),
                jobs: 0,
                is_target: true,
            },
        );
    }
    r
}

/// `q` is printer `p` as listed when `target` is the target printer.
pub open spec fn marked(p: PrinterInfo, q: PrinterInfo, target: Seq<char>) -> bool {
    &&& q.name@ == p.name@
    &&& q.driver@ == p.driver@
    &&& q.status@ == p.status@
    &&& q.jobs == p.jobs
    &&& q.is_target == (p.name@ == target)
}

/// The printers a client lists, each marked as the target or not.
pub fn mark_target(printers: &Vec<PrinterInfo>, target: &str) -> (r: Vec<PrinterInfo>)
    ensures
        r@.len() == printers@.len(),
        forall|i: int| 0 <= i < r@.len() ==> marked(printers@[i], #[trigger] r@[i], target@),
{
    let tc = chars_of(target);
    let mut r: Vec<PrinterInfo> = Vec::new();
    let mut i: usize = 0;
    while i < printers.len()
        invariant
            i <= printers@.len(),
            tc@ == target@,
            r@.len() == i,
            forall|k: int| 0 <= k < i ==> marked(printers@[k], #[trigger] r@[k], target@),
        decreases printers@.len() - i,
    {
        let p = &printers[i];
        let nc = chars_of(p.name.as_str());
        let is_target = chars_eq(nc.as_slice(), tc.as_slice());
        r.push(
            PrinterInfo {
                name: p.name.clone(),
                driver: p.driver.clone(),
                status: p.status.clone(),
                jobs: p.jobs,
                is_target,
            },
        );
        i = i + 1;
    }
    r
}

/// The new target printer a request names: the name with surrounding
/// whitespace removed, `None` (answered 400) when nothing is left.
pub fn target_name(name: &str) -> (r: Option<String>)
    ensures
        match r {
            None => trim(name@).len() == 0,
            Some(t) => trim(name@).len() > 0 && t@ == trim(name@),
        },
{
    let t = trim_str(name);
    if t.len() == 0 {
        None
    } else {
        Some(string_of(t.as_slice()))
    }
}

// ---------------------------------------------------------------------------
// What /api/status reports about a client
// ---------------------------------------------------------------------------

/// The client identity a dashboard adds to `/api/status`; all absent on a
/// server.
#[derive(Debug, Clone)]
pub struct StatusIdentity {
    pub client_id: Option<String>,
    pub printer_display_name: Option<String>,
    pub printer_address: Option<String>,
    pub print_backend: Option<String>,
    pub server_address: Option<String>,
    /// The per-job print timeout the service loaded, in seconds.
    pub print_timeout_secs: Option<u64>,
}

impl StatusIdentity {
    /// A server's status: no client identity.
    pub fn server() -> (r: Self)
        ensures
            r.client_id is None,
            r.printer_display_name is None,
            r.printer_address is None,
            r.print_backend is None,
            r.server_address is None,
            r.print_timeout_secs is None,
    {
        StatusIdentity {
            client_id: None,
            printer_display_name: None,
            printer_address: None,
            print_backend: None,
            server_address: None,
            print_timeout_secs: None,
        }
    }

    /// The identity of a client running with `config`.
    pub fn with_client_config(self, config: &ClientConfig) -> (r: Self)
        ensures
            opt_chars(r.client_id) == opt_chars(config.client_id),
            opt_chars(r.printer_display_name) == opt_chars(config.printer_display_name),
            opt_chars(r.printer_address) == opt_chars(config.printer_address),
            opt_chars(r.print_backend) == Some(config.print_backend@),
            opt_chars(r.server_address) == Some(config.server_address@),
            r.print_timeout_secs == self.print_timeout_secs,
    {
        StatusIdentity {
            client_id: clone_opt(&config.client_id),
            printer_display_name: clone_opt(&config.printer_display_name),
            printer_address: clone_opt(&config.printer_address),
            print_backend: Some(config.print_backend.clone()),
            server_address: Some(config.server_address.clone()),
            print_timeout_secs: self.print_timeout_secs,
        }
    }

    /// Record the `[jobs]` print timeout the service loaded.
    pub fn with_jobs_config(self, config: &JobsConfig) -> (r: Self)
        ensures
            r.print_timeout_secs == Some(config.print_timeout_secs),
            r.client_id == self.client_id,
            r.printer_display_name == self.printer_display_name,
            r.printer_address == self.printer_address,
            r.print_backend == self.print_backend,
            r.server_address == self.server_address,
    {
        StatusIdentity { print_timeout_secs: Some(config.print_timeout_secs), ..self }
    }
}

} // verus!
