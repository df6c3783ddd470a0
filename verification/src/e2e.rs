//! Helpers of the end-to-end suite: the RAW passthrough lane (a label
//! payload spooled RAW on the server and printed RAW by a client), the
//! version check, the duplicate-dispatch count, and the IPP requests the
//! suite sends. The HTTP calls and PowerShell runs are the suite's own.
use vstd::prelude::*;

use crate::ipp::{
    attr_bytes, be32_signed, operation_prefix, push_bytes, push_operation_prefix, write_attribute,
    write_integer_attribute, END_OF_ATTRIBUTES_TAG, INTEGER_TAG, JOB_ATTRIBUTES_TAG,
    MIME_MEDIA_TYPE_TAG, NAME_WITHOUT_LANGUAGE_TAG,
};
use crate::spooler_raw::first_nonblank;
use crate::text::{
    all_digits, ascii_lower_seq, ascii_lower_vec, chars_eq, chars_of, contains, contains_exec, dec, eq_str,
    opt_chars,
    escape_quotes, fields_by, fields_exec, lines, lines_of, parse_uint, parse_uint_exec, push_chars,
    push_dec, push_escaped, push_str, split_by, split_exec, split_once, split_once_exec, starts_with,
    starts_with_exec, str_debug, str_debug_text, string_of, strip_pred, sub_vec, trim, trim_chars,
    views, ws,
};

verus! {

/// machine_id (`client_id`) of the RAW E2E client.
pub const E2E_RAW_CLIENT_ID: &'static str = "e2e-raw-client";

/// Virtual printer name the RAW client asks for (the Windows printer name
/// on the server).
pub const E2E_RAW_VP_NAME: &'static str = "E2E Raw";

/// Driver override the RAW client asks for: an inbox v3 driver standing in
/// for a label printer's vendor driver.
pub const E2E_RAW_DRIVER: &'static str = "Generic / Text Only";

/// Document name of the suite's IPP Print-Job.
pub const E2E_DOCUMENT_NAME: &'static str = "DevBridge-E2E-Selfhost.pdf";

/// Copies requested by the suite's IPP Print-Job.
pub const E2E_COPIES: u32 = 3;

/// The bytes `0x00` to `0xFF`, in order.
pub open spec fn every_byte() -> Seq<u8> {
    Seq::new(256, |i: int| i as u8)
}

/// The label payload of [`raw_payload`].
pub open spec fn raw_payload_bytes(marker: Seq<char>) -> Seq<u8> {
    vstd::utf8::encode_utf8(
        "SIZE 50 mm,30 mm\r\nGAP 2 mm,0 mm\r\nCLS\r\nTEXT 10,10,\"3\",0,1,1,\""@ + marker + "\"\r\n"@,
    ) + every_byte() + vstd::utf8::encode_utf8("\r\nPRINT 1,1\r\n"@)
}

/// Deterministic label-like payload: a TSPL job plus every byte value
/// 0x00..=0xFF and a unique marker so the run's job is unambiguous.
pub fn raw_payload(marker: &str) -> (r: Vec<u8>)
    ensures
        r@ == raw_payload_bytes(marker@),
{
    let mut head = String::new();
    push_str(&mut head, "SIZE 50 mm,30 mm\r\nGAP 2 mm,0 mm\r\nCLS\r\nTEXT 10,10,\"3\",0,1,1,\"");
    push_str(&mut head, marker);
    push_str(&mut head, "\"\r\n");
    let mut p: Vec<u8> = Vec::new();
    push_bytes(&mut p, head.as_str().as_bytes());
    let ghost before = p@;
    let mut b: u32 = 0;
    while b < 256
        invariant
            b <= 256,
            p@ == before + every_byte().take(b as int),
        decreases 256 - b,
    {
        p.push(b as u8);
        b = b + 1;
        assert(p@ =~= before + every_byte().take(b as int));
    }
    assert(every_byte().take(256) =~= every_byte());
    push_bytes(&mut p, "\r\nPRINT 1,1\r\n".as_bytes());
    p
}

/// The ipp_name the server derives from a display name: the same slug as
/// [`crate::virtual_printer::slugify`].
pub fn slugify(name: &str) -> (r: String)
    ensures
        r@ == crate::virtual_printer::slug(name@),
{
    crate::virtual_printer::slugify(name)
}

/// Windows printer port URL the reconciler registers for `ipp_name`.
pub fn expected_port_url(ipp_port: &str, ipp_name: &str) -> (r: String)
    ensures
        r@ == "http://127.0.0.1:"@ + ipp_port@ + "/printers/"@ + ipp_name@,
{
    let mut s = String::new();
    push_str(&mut s, "http://127.0.0.1:");
    push_str(&mut s, ipp_port);
    push_str(&mut s, "/printers/");
    push_str(&mut s, ipp_name);
    s
}

/// What [`parse_driver_port`] reads: the first non-blank line, split at its
/// first `|`, both halves trimmed.
pub open spec fn driver_port_of(stdout: Seq<char>) -> Option<(Seq<char>, Seq<char>)> {
    match first_nonblank(lines(stdout)) {
        None => None,
        Some(l) => match split_once(l, '|') {
            None => None,
            Some((d, p)) => Some((trim(d), trim(p))),
        },
    }
}

/// Parse `Get-Printer` output `<DriverName>|<PortName>`.
pub fn parse_driver_port(stdout: &str) -> (r: Option<(String, String)>)
    ensures
        match driver_port_of(stdout@) {
            None => r is None,
            Some((d, p)) => r matches Some((a, b)) && a@ == d && b@ == p,
        },
{
    let cs = chars_of(stdout);
    let ls = lines_of(cs.as_slice());
    let ghost all = views(ls@);
    let mut i: usize = 0;
    assert(all.subrange(0, all.len() as int) =~= all);
    while i < ls.len()
        invariant
            i <= ls@.len(),
            all == views(ls@),
            all == lines(stdout@),
            first_nonblank(all) == first_nonblank(all.subrange(i as int, all.len() as int)),
        decreases ls@.len() - i,
    {
        let ghost rest = all.subrange(i as int, all.len() as int);
        assert(rest[0] == ls@[i as int]@);
        let t = trim_chars(ls[i].as_slice());
        if t.len() > 0 {
            return match split_once_exec(t.as_slice(), '|') {
                None => None,
                Some((d, p)) => {
                    let dt = trim_chars(d.as_slice());
                    let pt = trim_chars(p.as_slice());
                    Some((string_of(dt.as_slice()), string_of(pt.as_slice())))
                },
            };
        }
        assert(rest.drop_first() =~= all.subrange(i + 1, all.len() as int));
        i = i + 1;
    }
    None
}

/// The first line that, trimmed, starts with `prefix`; trimmed.
pub open spec fn first_prefixed(ls: Seq<Seq<char>>, prefix: Seq<char>) -> Option<Seq<char>>
    decreases ls.len(),
{
    if ls.len() == 0 {
        None
    } else if starts_with(trim(ls[0]), prefix) {
        Some(trim(ls[0]))
    } else {
        first_prefixed(ls.drop_first(), prefix)
    }
}

/// `s` without its first four characters.
pub open spec fn after4(s: Seq<char>) -> Seq<char> {
    s.subrange(4, s.len() as int)
}

/// The `JOB=`, `LEN=` and `SHA=` values of a line's fields, the last of
/// each kind winning: the job id as a `u32`, the length as a `u64` (each
/// `None` when it does not parse) and the digest in lower case.
pub open spec fn submit_fields(parts: Seq<Seq<char>>) -> (Option<u32>, Option<u64>, Option<Seq<char>>)
    decreases parts.len(),
{
    if parts.len() == 0 {
        (None, None, None)
    } else {
        let (j, l, s) = submit_fields(parts.drop_last());
        let p = parts.last();
        if starts_with(p, "JOB="@) {
            (
                match parse_uint(after4(p), u32::MAX as nat) {
                    Some(v) => Some(v as u32),
                    None => None,
                },
                l,
                s,
            )
        } else if starts_with(p, "LEN="@) {
            (
                j,
                match parse_uint(after4(p), u64::MAX as nat) {
                    Some(v) => Some(v as u64),
                    None => None,
                },
                s,
            )
        } else if starts_with(p, "SHA="@) {
            (j, l, Some(ascii_lower_seq(after4(p))))
        } else {
            (j, l, s)
        }
    }
}

/// What [`parse_submit_line`] reads: the first line starting with `JOB=`,
/// with all three values present.
pub open spec fn submit_line_of(stdout: Seq<char>) -> Option<(u32, u64, Seq<char>)> {
    match first_prefixed(lines(stdout), "JOB="@) {
        None => None,
        Some(line) => match submit_fields(fields_by(line, ws())) {
            (Some(j), Some(l), Some(s)) => Some((j, l, s)),
            _ => None,
        },
    }
}

/// Parse the submit script's `JOB=<id> LEN=<n> SHA=<hex>` line.
pub fn parse_submit_line(stdout: &str) -> (r: Option<(u32, u64, String)>)
    ensures
        match submit_line_of(stdout@) {
            None => r is None,
            Some((j, l, s)) => r matches Some((a, b, c)) && a == j && b == l && c@ == s,
        },
{
    let cs = chars_of(stdout);
    let ls = lines_of(cs.as_slice());
    let ghost all = views(ls@);
    let job_p = chars_of("JOB=");
    let len_p = chars_of("LEN=");
    let sha_p = chars_of("SHA=");
    let mut i: usize = 0;
    assert(all.subrange(0, all.len() as int) =~= all);
    while i < ls.len()
        invariant
            i <= ls@.len(),
            all == views(ls@),
            all == lines(stdout@),
            job_p@ == "JOB="@,
            len_p@ == "LEN="@,
            sha_p@ == "SHA="@,
            first_prefixed(all, "JOB="@) == first_prefixed(all.subrange(i as int, all.len() as int), "JOB="@),
        decreases ls@.len() - i,
    {
        let ghost rest = all.subrange(i as int, all.len() as int);
        assert(rest[0] == ls@[i as int]@);
        let t = trim_chars(ls[i].as_slice());
        if starts_with_exec(t.as_slice(), job_p.as_slice()) {
            let parts = fields_exec(t.as_slice(), true, ' ');
            let ghost ps = views(parts@);
            let mut job: Option<u32> = None;
            let mut len: Option<u64> = None;
            let mut sha: Option<Vec<char>> = None;
            let mut k: usize = 0;
            assert(ps.take(0) =~= Seq::<Seq<char>>::empty());
            while k < parts.len()
                invariant
                    k <= parts@.len(),
                    ps == views(parts@),
                    job_p@ == "JOB="@,
                    len_p@ == "LEN="@,
                    sha_p@ == "SHA="@,
                    submit_fields(ps.take(k as int)) == (
                        job,
                        len,
                        match sha {
                            Some(v) => Some(v@),
                            None => None,
                        },
                    ),
                decreases parts@.len() - k,
            {
                assert(ps.take(k + 1).drop_last() =~= ps.take(k as int));
                assert(ps.take(k + 1).last() == parts@[k as int]@);
                proof {
                    reveal_strlit("JOB=");
                    reveal_strlit("LEN=");
                    reveal_strlit("SHA=");
                }
                let p = parts[k].as_slice();
                if starts_with_exec(p, job_p.as_slice()) {
                    let v = sub_vec(p, 4, p.len());
                    job = match parse_uint_exec(v.as_slice(), u32::MAX as u64) {
                        Some(n) => Some(n as u32),
                        None => None,
                    };
                } else if starts_with_exec(p, len_p.as_slice()) {
                    let v = sub_vec(p, 4, p.len());
                    len = parse_uint_exec(v.as_slice(), u64::MAX);
                } else if starts_with_exec(p, sha_p.as_slice()) {
                    let v = sub_vec(p, 4, p.len());
                    sha = Some(ascii_lower_vec(v.as_slice()));
                }
                k = k + 1;
            }
            assert(ps.take(parts@.len() as int) =~= ps);
            return match (job, len, sha) {
                (Some(j), Some(l), Some(s)) => Some((j, l, string_of(s.as_slice()))),
                _ => None,
            };
        }
        assert(rest.drop_first() =~= all.subrange(i + 1, all.len() as int));
        i = i + 1;
    }
    None
}

/// Whether the client's EventID 307 evidence reports exactly `len` bytes
/// (`..., <n> bytes (expected <n>)`, the RAW spooler backend's format).
pub open spec fn reports_byte_count(evidence: Seq<char>, len: u64) -> bool {
    starts_with(evidence, "EventID 307:"@) && contains(
        evidence,
        ", "@ + dec(len as nat) + " bytes (expected "@ + dec(len as nat) + ")"@,
    )
}

/// The client's EventID 307 evidence must report exactly `len` bytes.
pub fn evidence_has_byte_count(evidence: &str, len: u64) -> (r: bool)
    ensures
        r == reports_byte_count(evidence@, len),
{
    let e = chars_of(evidence);
    let head = chars_of("EventID 307:");
    let mut want = String::new();
    push_str(&mut want, ", ");
    push_dec(&mut want, len);
    push_str(&mut want, " bytes (expected ");
    push_dec(&mut want, len);
    push_str(&mut want, ")");
    let w = chars_of(want.as_str());
    starts_with_exec(e.as_slice(), head.as_slice()) && contains_exec(e.as_slice(), w.as_slice())
}

/// The submit script up to the payload path.
pub const SUBMIT_HEAD: &'static str = "$ErrorActionPreference = 'Stop'\nAdd-Type -TypeDefinition @'\nusing System;\nusing System.Runtime.InteropServices;\npublic static class DbE2eRaw {\n  [StructLayout(LayoutKind.Sequential, CharSet=CharSet.Unicode)]\n  public class DOCINFOW { [MarshalAs(UnmanagedType.LPWStr)] public string pDocName; [MarshalAs(UnmanagedType.LPWStr)] public string pOutputFile; [MarshalAs(UnmanagedType.LPWStr)] public string pDatatype; }\n  [DllImport(\"winspool.drv\", CharSet=CharSet.Unicode, SetLastError=true)] public static extern bool OpenPrinterW(string n, out IntPtr h, IntPtr d);\n  [DllImport(\"winspool.drv\", SetLastError=true)] public static extern bool ClosePrinter(IntPtr h);\n  [DllImport(\"winspool.drv\", CharSet=CharSet.Unicode, SetLastError=true)] public static extern int StartDocPrinterW(IntPtr h, int level, [In] DOCINFOW di);\n  [DllImport(\"winspool.drv\", SetLastError=true)] public static extern bool EndDocPrinter(IntPtr h);\n  [DllImport(\"winspool.drv\", SetLastError=true)] public static extern bool WritePrinter(IntPtr h, byte[] b, int n, out int w);\n}\n'@\n$bytes = [System.IO.File]::ReadAllBytes('";

/// The submit script between the payload path and the printer name.
pub const SUBMIT_MID: &'static str = "')\n$sha = ([BitConverter]::ToString([System.Security.Cryptography.SHA256]::Create().ComputeHash($bytes))).Replace('-', '').ToLower()\n$h = [IntPtr]::Zero\nif (-not [DbE2eRaw]::OpenPrinterW('";

/// The submit script after the printer name.
pub const SUBMIT_TAIL: &'static str = "', [ref]$h, [IntPtr]::Zero)) { throw \"OpenPrinterW failed: $([Runtime.InteropServices.Marshal]::GetLastWin32Error())\" }\ntry {\n  $di = New-Object DbE2eRaw+DOCINFOW\n  $di.pDocName = 'devbridge-e2e-raw'\n  $di.pDatatype = 'RAW'\n  $job = [DbE2eRaw]::StartDocPrinterW($h, 1, $di)\n  if ($job -eq 0) { throw \"StartDocPrinterW failed: $([Runtime.InteropServices.Marshal]::GetLastWin32Error())\" }\n  $w = 0\n  if (-not [DbE2eRaw]::WritePrinter($h, $bytes, $bytes.Length, [ref]$w)) { throw \"WritePrinter failed: $([Runtime.InteropServices.Marshal]::GetLastWin32Error())\" }\n  if ($w -ne $bytes.Length) { throw \"WritePrinter wrote $w of $($bytes.Length) bytes\" }\n  if (-not [DbE2eRaw]::EndDocPrinter($h)) { throw \"EndDocPrinter failed: $([Runtime.InteropServices.Marshal]::GetLastWin32Error())\" }\n} finally {\n  [DbE2eRaw]::ClosePrinter($h) | Out-Null\n}\n\"JOB=$job LEN=$($bytes.Length) SHA=$sha\"\n";

/// PowerShell that writes the file at `path` RAW into Windows printer
/// `printer` via winspool (the call path a vendor driver's spooled output
/// takes) and prints `JOB=<id> LEN=<n> SHA=<sha256>`. Both names go into
/// single-quoted strings with their quotes doubled.
pub fn submit_script(printer: &str, path: &str) -> (r: String)
    ensures
        r@ == SUBMIT_HEAD@ + escape_quotes(path@) + SUBMIT_MID@ + escape_quotes(printer@) + SUBMIT_TAIL@,
{
    let pa = chars_of(path);
    let pr = chars_of(printer);
    let mut s = String::new();
    push_str(&mut s, SUBMIT_HEAD);
    push_escaped(&mut s, pa.as_slice());
    push_str(&mut s, SUBMIT_MID);
    push_escaped(&mut s, pr.as_slice());
    push_str(&mut s, SUBMIT_TAIL);
    s
}

} // verus!

verus! {

// ---------------------------------------------------------------------------
// Version strings
// ---------------------------------------------------------------------------

/// Index of the first `-` or `+`, or the length.
pub open spec fn suffix_start(v: Seq<char>) -> nat
    decreases v.len(),
{
    if v.len() == 0 {
        0
    } else if v[0] == '-' || v[0] == '+' {
        0
    } else {
        1 + suffix_start(v.drop_first())
    }
}

/// `MAJOR.MINOR.PATCH` with three non-empty runs of ASCII digits, before an
/// optional pre-release or build suffix (from the first `-` or `+`).
pub open spec fn semver(v: Seq<char>) -> bool {
    let core = v.take(suffix_start(v) as int);
    let parts = split_by(core, strip_pred(false, '.'));
    parts.len() == 3 && forall|i: int| 0 <= i < 3 ==> #[trigger] parts[i].len() > 0 && all_digits(parts[i])
}

proof fn lemma_suffix_start(v: Seq<char>, k: int)
    requires
        0 <= k <= v.len(),
        forall|j: int| 0 <= j < k ==> v[j] != '-' && v[j] != '+',
        k < v.len() ==> (v[k] == '-' || v[k] == '+'),
    ensures
        suffix_start(v) == k,
    decreases v.len(),
{
    if v.len() > 0 && v[0] != '-' && v[0] != '+' {
        assert forall|j: int| 0 <= j < k - 1 implies v.drop_first()[j] != '-' && v.drop_first()[j] != '+' by {
            assert(v.drop_first()[j] == v[j + 1]);
        }
        if k - 1 < v.drop_first().len() {
            assert(v.drop_first()[k - 1] == v[k]);
        }
        lemma_suffix_start(v.drop_first(), k - 1);
    }
}

/// True when `v` is `MAJOR.MINOR.PATCH` with all three parts non-empty ASCII
/// digits. A pre-release / build suffix (`-dev.1`, `+abc`) after the patch
/// number is accepted.
pub fn is_semver(v: &str) -> (r: bool)
    ensures
        r == semver(v@),
{
    let cs = chars_of(v);
    let mut end: usize = 0;
    while end < cs.len() && cs[end] != '-' && cs[end] != '+'
        invariant
            end <= cs@.len(),
            forall|j: int| 0 <= j < end ==> cs@[j] != '-' && cs@[j] != '+',
        decreases cs@.len() - end,
    {
        end = end + 1;
    }
    proof {
        lemma_suffix_start(cs@, end as int);
    }
    let core = sub_vec(cs.as_slice(), 0, end);
    assert(core@ =~= v@.take(suffix_start(v@) as int));
    let parts = split_exec(core.as_slice(), false, '.');
    let ghost sp = views(parts@);
    if parts.len() != 3 {
        return false;
    }
    let mut i: usize = 0;
    while i < 3
        invariant
            i <= 3,
            parts@.len() == 3,
            sp == views(parts@),
            sp == split_by(v@.take(suffix_start(v@) as int), strip_pred(false, '.')),
            forall|j: int| 0 <= j < i ==> #[trigger] parts@[j]@.len() > 0 && all_digits(parts@[j]@),
        decreases 3 - i,
    {
        let p = parts[i].as_slice();
        assert(sp[i as int] == p@);
        if p.len() == 0 {
            assert(sp[i as int].len() == 0);
            return false;
        }
        let mut k: usize = 0;
        while k < p.len()
            invariant
                k <= p@.len(),
                i < 3,
                sp[i as int] == p@,
                sp == split_by(v@.take(suffix_start(v@) as int), strip_pred(false, '.')),
                sp.len() == 3,
                forall|j: int| 0 <= j < k ==> crate::text::is_digit(#[trigger] p@[j]),
            decreases p@.len() - k,
        {
            if !('0' <= p[k] && p[k] <= '9') {
                assert(!crate::text::is_digit(sp[i as int][k as int]));
                assert(!all_digits(sp[i as int]));
                return false;
            }
            k = k + 1;
        }
        i = i + 1;
    }
    assert forall|j: int| 0 <= j < 3 implies #[trigger] views(parts@)[j].len() > 0 && all_digits(views(parts@)[j]) by {
        assert(views(parts@)[j] == parts@[j]@);
    }
    true
}

/// What [`check_status_version`] makes of the `version` field of a
/// `/api/status` response (`None` when it is missing or not a string;
/// `shown` is the field as the response renders it).
pub open spec fn status_version_outcome(version: Option<Seq<char>>, shown: Seq<char>, who: Seq<char>) -> Result<Seq<char>, Seq<char>> {
    let v = match version {
        Some(s) => s,
        None => Seq::<char>::empty(),
    };
    if semver(v) {
        Ok(v)
    } else {
        Err(who + " /api/status 'version' is not a MAJOR.MINOR.PATCH version: "@ + shown)
    }
}

/// Validate the `version` field of a `/api/status` response and return it.
/// `who` names the instance (server / client) in the error message.
pub fn check_status_version(version: Option<&str>, shown: &str, who: &str) -> (r: Result<String, String>)
    ensures
        match (r, status_version_outcome(
            match version {
                Some(s) => Some(s@),
                None => None,
            },
            shown@,
            who@,
        )) {
            (Ok(a), Ok(b)) => a@ == b,
            (Err(a), Err(b)) => a@ == b,
            _ => false,
        },
{
    let v: &str = match version {
        Some(s) => s,
        None => "",
    };
    proof {
        reveal_strlit("");
    }
    if is_semver(v) {
        Ok(v.to_owned())
    } else {
        let mut e = String::new();
        push_str(&mut e, who);
        push_str(&mut e, " /api/status 'version' is not a MAJOR.MINOR.PATCH version: ");
        push_str(&mut e, shown);
        Err(e)
    }
}

} // verus!

verus! {

// ---------------------------------------------------------------------------
// Dispatch cycles
// ---------------------------------------------------------------------------

/// Walking a job's stages in order: the number of dispatch cycles that
/// reached the printer so far, and whether the current cycle was counted.
/// A cycle starts at each `downloaded`; it counts once, at its first
/// `sending`. A `sending` before any `downloaded` also counts.
pub open spec fn cycle_walk(stages: Seq<Option<Seq<char>>>) -> (nat, bool)
    decreases stages.len(),
{
    if stages.len() == 0 {
        (0, false)
    } else {
        let (n, counted) = cycle_walk(stages.drop_last());
        match stages.last() {
            Some(s) => if s == "downloaded"@ {
                (n, false)
            } else if s == "sending"@ && !counted {
                (n + 1, true)
            } else {
                (n, counted)
            },
            None => (n, counted),
        }
    }
}

/// Count the dispatch cycles of one job that reached the printer (emitted a
/// `sending` stage), given its stages in order (`None` where an event has
/// no stage). Several `sending` stages in one cycle (a multi-page job)
/// count once; a second cycle that also sends is a double dispatch.
pub fn count_dispatch_cycles_that_sent(stages: &Vec<Option<String>>) -> (r: usize)
    ensures
        r == cycle_walk(stages@.map_values(|s: Option<String>| match s {
            Some(t) => Some(t@),
            None => None,
        })).0,
{
    let ghost all = stages@.map_values(|s: Option<String>| match s {
        Some(t) => Some(t@),
        None => None,
    });
    let mut cycles: usize = 0;
    let mut counted = false;
    let mut i: usize = 0;
    assert(all.take(0) =~= Seq::<Option<Seq<char>>>::empty());
    while i < stages.len()
        invariant
            i <= stages@.len(),
            all == stages@.map_values(|s: Option<String>| match s {
                Some(t) => Some(t@),
                None => None,
            }),
            cycle_walk(all.take(i as int)) == (cycles as nat, counted),
            cycles <= i,
        decreases stages@.len() - i,
    {
        assert(all.take(i + 1).drop_last() =~= all.take(i as int));
        assert(all.take(i + 1).last() == all[i as int]);
        match &stages[i] {
            Some(s) => {
                let c = chars_of(s.as_str());
                if eq_str(c.as_slice(), "downloaded") {
                    counted = false;
                } else if eq_str(c.as_slice(), "sending") && !counted {
                    cycles = cycles + 1;
                    counted = true;
                }
            },
            None => {},
        }
        i = i + 1;
    }
    assert(all.take(stages@.len() as int) =~= all);
    cycles
}

// ---------------------------------------------------------------------------
// The suite's IPP requests
// ---------------------------------------------------------------------------

/// The suite's Print-Job request (request id 1) for `pdf_data`: document
/// format `application/pdf`, its document name, and 3 copies in a
/// Job-Attributes group.
pub open spec fn e2e_print_job(pdf_data: Seq<u8>) -> Seq<u8> {
    operation_prefix(0x0002, 1, "ipp://localhost:631/ipp/print"@) + attr_bytes(
        MIME_MEDIA_TYPE_TAG,
        "document-format"@,
        vstd::utf8::encode_utf8("application/pdf"@),
    ) + attr_bytes(
        NAME_WITHOUT_LANGUAGE_TAG,
        "document-name"@,
        vstd::utf8::encode_utf8(E2E_DOCUMENT_NAME@),
    ) + seq![JOB_ATTRIBUTES_TAG] + attr_bytes(INTEGER_TAG, "copies"@, be32_signed(E2E_COPIES as i32))
        + seq![END_OF_ATTRIBUTES_TAG] + pdf_data
}

/// Builds the suite's IPP Print-Job request, document data included.
pub fn build_ipp_print_job(pdf_data: &[u8]) -> (r: Vec<u8>)
    ensures
        r@ == e2e_print_job(pdf_data@),
{
    let mut buf: Vec<u8> = Vec::new();
    push_operation_prefix(&mut buf, 0x0002, 1, "ipp://localhost:631/ipp/print");
    write_attribute(&mut buf, MIME_MEDIA_TYPE_TAG, "document-format", "application/pdf".as_bytes());
    write_attribute(&mut buf, NAME_WITHOUT_LANGUAGE_TAG, "document-name", E2E_DOCUMENT_NAME.as_bytes());
    buf.push(JOB_ATTRIBUTES_TAG);
    write_integer_attribute(&mut buf, INTEGER_TAG, "copies", E2E_COPIES as i32);
    buf.push(END_OF_ATTRIBUTES_TAG);
    push_bytes(&mut buf, pdf_data);
    assert(buf@ =~= e2e_print_job(pdf_data@));
    buf
}

/// The suite's Get-Printer-Attributes request (operation 0x000B, request id 2).
pub open spec fn e2e_get_printer_attributes() -> Seq<u8> {
    operation_prefix(0x000b, 2, "ipp://localhost:631/ipp/print"@) + seq![END_OF_ATTRIBUTES_TAG]
}

/// Builds the suite's Get-Printer-Attributes request.
pub fn build_ipp_get_printer_attributes() -> (r: Vec<u8>)
    ensures
        r@ == e2e_get_printer_attributes(),
{
    let mut buf: Vec<u8> = Vec::new();
    push_operation_prefix(&mut buf, 0x000b, 2, "ipp://localhost:631/ipp/print");
    buf.push(END_OF_ATTRIBUTES_TAG);
    assert(buf@ =~= e2e_get_printer_attributes());
    buf
}

} // verus!

verus! {

// ---------------------------------------------------------------------------
// The serial bridge a deployed client reports
// ---------------------------------------------------------------------------

/// Port the end-to-end setup hands the installer's config merge.
pub const E2E_SERIAL_PORT: &'static str = "COM250";

/// Baud rate the end-to-end setup hands the installer's config merge.
pub const E2E_SERIAL_BAUD: u64 = 9600;

/// The `serial_bridge` entry of a client's `/api/status`, as far as the
/// check reads it.
#[derive(Debug, Clone)]
pub enum StatusBridge {
    /// The response has no `serial_bridge` key.
    Missing,
    /// The key is there with `null`.
    Null,
    /// Any other value: its `enabled` (when a boolean), `port` (when a
    /// string) and `baud_rate` (when an unsigned integer), and the value as
    /// the response renders it.
    Present { enabled: Option<bool>, port: Option<String>, baud_rate: Option<u64>, shown: String },
}

/// What [`check_serial_bridge_status`] answers for `sb` against the
/// expected `port` and `baud`.
pub open spec fn bridge_outcome(sb: StatusBridge, port: Seq<char>, baud: u64) -> Result<(), Seq<char>> {
    match sb {
        StatusBridge::Missing => Err(
            "client /api/status has no 'serial_bridge' key (issue #70 not deployed?)"@,
        ),
        StatusBridge::Null => Err(
            "client /api/status serial_bridge is null — the installer-merged [client.serial_bridge] block did not load"@,
        ),
        StatusBridge::Present { enabled, port: p, baud_rate, shown } => if enabled != Some(true) {
            Err("serial_bridge.enabled must be true, got "@ + shown@)
        } else if match p {
            Some(q) => q@ != port,
            None => true,
        } {
            Err("serial_bridge.port must be "@ + str_debug_text(port) + ", got "@ + shown@)
        } else if baud_rate != Some(baud) {
            Err("serial_bridge.baud_rate must be "@ + dec(baud as nat) + ", got "@ + shown@)
        } else {
            Ok(())
        },
    }
}

/// Validate the `serial_bridge` entry of a client's `/api/status` against
/// the values the end-to-end setup wrote: enabled, on `port`, at `baud`.
pub fn check_serial_bridge_status(sb: &StatusBridge, port: &str, baud: u64) -> (r: Result<(), String>)
    ensures
        match (r, bridge_outcome(*sb, port@, baud)) {
            (Ok(_), Ok(_)) => true,
            (Err(a), Err(b)) => a@ == b,
            _ => false,
        },
{
    match sb {
        StatusBridge::Missing => Err(
            "client /api/status has no 'serial_bridge' key (issue #70 not deployed?)".to_owned(),
        ),
        StatusBridge::Null => Err(
            "client /api/status serial_bridge is null — the installer-merged [client.serial_bridge] block did not load".to_owned(),
        ),
        StatusBridge::Present { enabled, port: p, baud_rate, shown } => {
            let enabled_ok = match enabled {
                Some(b) => *b,
                None => false,
            };
            if !enabled_ok {
                let mut e = String::new();
                push_str(&mut e, "serial_bridge.enabled must be true, got ");
                push_str(&mut e, shown.as_str());
                return Err(e);
            }
            let port_ok = match p {
                Some(q) => {
                    let qc = chars_of(q.as_str());
                    eq_str(qc.as_slice(), port)
                },
                None => false,
            };
            if !port_ok {
                let mut e = String::new();
                push_str(&mut e, "serial_bridge.port must be ");
                let d = str_debug(port);
                push_str(&mut e, d.as_str());
                push_str(&mut e, ", got ");
                push_str(&mut e, shown.as_str());
                return Err(e);
            }
            let baud_ok = match baud_rate {
                Some(b) => *b == baud,
                None => false,
            };
            if !baud_ok {
                let mut e = String::new();
                push_str(&mut e, "serial_bridge.baud_rate must be ");
                push_dec(&mut e, baud);
                push_str(&mut e, ", got ");
                push_str(&mut e, shown.as_str());
                return Err(e);
            }
            Ok(())
        },
    }
}

/// What [`check_client_survived`] answers for the `status` text of the
/// second read and the `uptime_secs` of both reads.
pub open spec fn survival_outcome(
    status_after: Option<Seq<char>>,
    uptime_before: Option<u64>,
    uptime_after: Option<u64>,
) -> Result<(), Seq<char>> {
    if status_after != Some("running"@) {
        Err("client status must stay 'running' with a failing serial reader, got "@ + match status_after {
            Some(s) => "Some("@ + str_debug_text(s) + ")"@,
            None => "None"@,
        })
    } else {
        match (uptime_before, uptime_after) {
            (None, _) => Err("first status read has no uptime_secs"@),
            (Some(_), None) => Err("second status read has no uptime_secs"@),
            (Some(b), Some(a)) => if a >= b {
                Ok(())
            } else {
                Err(
                    "client uptime went backwards ("@ + dec(b as nat) + "s -> "@ + dec(a as nat)
                        + "s): the service restarted with the serial bridge enabled"@,
                )
            },
        }
    }
}

/// Validate that a second status read shows the same running process: the
/// status is `running` and the uptime did not go backwards (a crash and
/// relaunch would reset it).
pub fn check_client_survived(
    status_after: Option<&str>,
    uptime_before: Option<u64>,
    uptime_after: Option<u64>,
) -> (r: Result<(), String>)
    ensures
        match (
            r,
            survival_outcome(
                match status_after {
                    Some(s) => Some(s@),
                    None => None,
                },
                uptime_before,
                uptime_after,
            ),
        ) {
            (Ok(_), Ok(_)) => true,
            (Err(a), Err(b)) => a@ == b,
            _ => false,
        },
{
    let running = match status_after {
        Some(s) => {
            let sc = chars_of(s);
            eq_str(sc.as_slice(), "running")
        },
        None => false,
    };
    if !running {
        let mut e = String::new();
        push_str(&mut e, "client status must stay 'running' with a failing serial reader, got ");
        match status_after {
            Some(s) => {
                push_str(&mut e, "Some(");
                let d = str_debug(s);
                push_str(&mut e, d.as_str());
                push_str(&mut e, ")");
            },
            None => {
                push_str(&mut e, "None");
            },
        }
        return Err(e);
    }
    match (uptime_before, uptime_after) {
        (None, _) => Err("first status read has no uptime_secs".to_owned()),
        (Some(_), None) => Err("second status read has no uptime_secs".to_owned()),
        (Some(b), Some(a)) => if a >= b {
            Ok(())
        } else {
            let mut e = String::new();
            push_str(&mut e, "client uptime went backwards (");
            push_dec(&mut e, b);
            push_str(&mut e, "s -> ");
            push_dec(&mut e, a);
            push_str(&mut e, "s): the service restarted with the serial bridge enabled");
            Err(e)
        },
    }
}

} // verus!

verus! {

// ---------------------------------------------------------------------------
// The RAW lane's comparisons
// ---------------------------------------------------------------------------

/// Check the virtual printer the RAW client's approval created: it carries
/// the driver override, and its IPP name is the slug of its name. `shown`
/// is the approval response as sent. Returns the IPP name.
pub fn check_approved_vp(driver: Option<&str>, ipp_name: Option<&str>, shown: &str) -> (r: Result<
    String,
    String,
>)
    ensures
        match driver {
            Some(d) if d@ == E2E_RAW_DRIVER@ => match ipp_name {
                None => r matches Err(e) && e@ == "approved VP has no ipp_name"@,
                Some(n) => if n@ == crate::virtual_printer::slug(E2E_RAW_VP_NAME@) {
                    r matches Ok(m) && m@ == n@
                } else {
                    r matches Err(e) && e@ == "unexpected ipp_name "@ + n@
                },
            },
            _ => r matches Err(e) && e@ == "approval did not create the VP with the driver override: "@
                + shown@,
        },
{
    let driver_ok = match driver {
        Some(d) => {
            let dc = chars_of(d);
            eq_str(dc.as_slice(), E2E_RAW_DRIVER)
        },
        None => false,
    };
    if !driver_ok {
        let mut e = String::new();
        push_str(&mut e, "approval did not create the VP with the driver override: ");
        push_str(&mut e, shown);
        return Err(e);
    }
    match ipp_name {
        None => Err("approved VP has no ipp_name".to_owned()),
        Some(n) => {
            let want = slugify(E2E_RAW_VP_NAME);
            let nc = chars_of(n);
            let wc = chars_of(want.as_str());
            if chars_eq(nc.as_slice(), wc.as_slice()) {
                Ok(n.to_owned())
            } else {
                let mut e = String::new();
                push_str(&mut e, "unexpected ipp_name ");
                push_str(&mut e, n);
                Err(e)
            }
        },
    }
}

/// The RAW virtual printer as `/api/virtual-printers` lists it.
#[derive(Debug, Clone)]
pub struct ListedVp {
    pub effective_driver: Option<String>,
    pub paired_client_id: Option<String>,
    /// The entry as sent.
    pub shown: String,
}

/// Check the listing of the RAW virtual printer: it is there, with the
/// driver override in effect and paired to the RAW client.
pub fn check_listed_vp(listed: Option<&ListedVp>) -> (r: Result<(), String>)
    ensures
        match listed {
            None => r matches Err(e) && e@ == "RAW VP missing from /api/virtual-printers"@,
            Some(v) => if opt_chars(v.effective_driver) == Some(E2E_RAW_DRIVER@) && opt_chars(
                v.paired_client_id,
            ) == Some(E2E_RAW_CLIENT_ID@) {
                r is Ok
            } else {
                r matches Err(e) && e@ == "RAW VP listed wrong: "@ + v.shown@
            },
        },
{
    match listed {
        None => Err("RAW VP missing from /api/virtual-printers".to_owned()),
        Some(v) => {
            let d_ok = match &v.effective_driver {
                Some(d) => {
                    let dc = chars_of(d.as_str());
                    eq_str(dc.as_slice(), E2E_RAW_DRIVER)
                },
                None => false,
            };
            let p_ok = match &v.paired_client_id {
                Some(p) => {
                    let pc = chars_of(p.as_str());
                    eq_str(pc.as_slice(), E2E_RAW_CLIENT_ID)
                },
                None => false,
            };
            if d_ok && p_ok {
                Ok(())
            } else {
                let mut e = String::new();
                push_str(&mut e, "RAW VP listed wrong: ");
                push_str(&mut e, v.shown.as_str());
                Err(e)
            }
        },
    }
}

/// Whether the server's Windows printer is registered with the driver
/// override on the expected port (`seen` as `parse_driver_port` read it).
pub fn printer_registered(seen: &Option<(String, String)>, want_port: &str) -> (r: bool)
    ensures
        r == (match seen {
            Some((d, p)) => d@ == E2E_RAW_DRIVER@ && p@ == want_port@,
            None => false,
        }),
{
    match seen {
        Some((d, p)) => {
            let dc = chars_of(d.as_str());
            let pc = chars_of(p.as_str());
            eq_str(dc.as_slice(), E2E_RAW_DRIVER) && eq_str(pc.as_slice(), want_port)
        },
        None => false,
    }
}

/// Check that the submit wrote the whole payload.
pub fn check_submitted_length(len: u64, payload_len: usize) -> (r: Result<(), String>)
    ensures
        if len == payload_len {
            r is Ok
        } else {
            r matches Err(e) && e@ == "submit wrote "@ + dec(len as nat) + " of "@ + dec(payload_len as nat)
                + " bytes"@
        },
{
    if len as u128 == payload_len as u128 {
        Ok(())
    } else {
        let mut e = String::new();
        push_str(&mut e, "submit wrote ");
        push_dec(&mut e, len);
        push_str(&mut e, " of ");
        push_dec(&mut e, payload_len as u64);
        push_str(&mut e, " bytes");
        Err(e)
    }
}

/// Check that the server's job holds the submitted bytes: its
/// `payload_sha256` (`shown` as the response renders it) is the digest the
/// submit reported.
pub fn check_server_sha(server_sha: Option<&str>, shown: &str, submitted: &str) -> (r: Result<(), String>)
    ensures
        match server_sha {
            Some(s) if s@ == submitted@ => r is Ok,
            _ => r matches Err(e) && e@ == "server payload is NOT byte-identical: sha256 "@ + shown@
                + " != submitted "@ + submitted@,
        },
{
    let same = match server_sha {
        Some(s) => {
            let sc = chars_of(s);
            eq_str(sc.as_slice(), submitted)
        },
        None => false,
    };
    if same {
        Ok(())
    } else {
        let mut e = String::new();
        push_str(&mut e, "server payload is NOT byte-identical: sha256 ");
        push_str(&mut e, shown);
        push_str(&mut e, " != submitted ");
        push_str(&mut e, submitted);
        Err(e)
    }
}

/// Where a polled job stands for a check waiting on it.
#[derive(Debug, Clone, Copy, PartialEq, Eq, Structural)]
pub enum PollVerdict {
    /// The check passed.
    Done,
    /// Keep polling (the caller gives up at its deadline).
    Continue,
}

/// The RAW job as its server status shows it: `completed` ends the wait,
/// `failed` fails the step, anything else waits.
pub fn raw_job_progress(status: &str) -> (r: Result<PollVerdict, ()>)
    ensures
        r == (if status@ == "completed"@ {
            Ok::<PollVerdict, ()>(PollVerdict::Done)
        } else if status@ == "failed"@ {
            Err::<PollVerdict, ()>(())
        } else {
            Ok(PollVerdict::Continue)
        }),
{
    let sc = chars_of(status);
    if eq_str(sc.as_slice(), "completed") {
        Ok(PollVerdict::Done)
    } else if eq_str(sc.as_slice(), "failed") {
        Err(())
    } else {
        Ok(PollVerdict::Continue)
    }
}

// ---------------------------------------------------------------------------
// The client job-history check
// ---------------------------------------------------------------------------

/// What the `retry_count` field of a job holds.
#[derive(Debug, Clone, Copy, PartialEq, Eq, Structural)]
pub enum RetryField {
    Missing,
    /// An unsigned integer.
    Number,
    /// Anything else.
    Other,
}

/// What the job-history check reads of the latest job on the client's
/// `/api/jobs`.
#[derive(Debug, Clone)]
pub struct LatestJob {
    pub has_id: bool,
    pub has_name: bool,
    pub has_printer: bool,
    pub has_status: bool,
    pub retry_count: RetryField,
    /// `status` when it is a string.
    pub status: Option<String>,
    /// The job as sent.
    pub shown: String,
    /// Its `retry_count` as sent.
    pub retry_shown: String,
}

/// What one poll of the client's job history decides: `Err` fails the
/// step with the message.
pub open spec fn history_verdict(latest: Option<LatestJob>) -> Result<PollVerdict, Seq<char>> {
    match latest {
        None => Err("client /api/jobs returned empty array — no job history"@),
        Some(j) => if !j.has_id {
            Err("job missing 'id' field"@)
        } else if !j.has_name {
            Err("job missing 'name' field"@)
        } else if !j.has_printer {
            Err("job missing 'printer' field"@)
        } else if !j.has_status {
            Err("job missing 'status' field"@)
        } else if j.retry_count == RetryField::Missing {
            Err("client job missing 'retry_count' field (#52): "@ + j.shown@)
        } else if j.retry_count == RetryField::Other {
            Err("client job 'retry_count' must be a number (#52): "@ + j.retry_shown@)
        } else if opt_chars(j.status) == Some("completed"@) || opt_chars(j.status) == Some("failed"@) {
            Ok(PollVerdict::Done)
        } else {
            Ok(PollVerdict::Continue)
        },
    }
}

/// One poll of the client's job history: the latest job (`None` when the
/// list is empty) must carry its fields and a numeric `retry_count`; the
/// check is done once it is completed or failed, and polls on otherwise.
pub fn job_history_step(latest: Option<&LatestJob>) -> (r: Result<PollVerdict, String>)
    ensures
        match (r, history_verdict(
            match latest {
                Some(j) => Some(*j),
                None => None,
            },
        )) {
            (Ok(a), Ok(b)) => a == b,
            (Err(a), Err(b)) => a@ == b,
            _ => false,
        },
{
    match latest {
        None => Err("client /api/jobs returned empty array — no job history".to_owned()),
        Some(j) => {
            if !j.has_id {
                return Err("job missing 'id' field".to_owned());
            }
            if !j.has_name {
                return Err("job missing 'name' field".to_owned());
            }
            if !j.has_printer {
                return Err("job missing 'printer' field".to_owned());
            }
            if !j.has_status {
                return Err("job missing 'status' field".to_owned());
            }
            match j.retry_count {
                RetryField::Missing => {
                    let mut e = String::new();
                    push_str(&mut e, "client job missing 'retry_count' field (#52): ");
                    push_str(&mut e, j.shown.as_str());
                    return Err(e);
                },
                RetryField::Other => {
                    let mut e = String::new();
                    push_str(&mut e, "client job 'retry_count' must be a number (#52): ");
                    push_str(&mut e, j.retry_shown.as_str());
                    return Err(e);
                },
                RetryField::Number => {},
            }
            let done = match &j.status {
                Some(s) => {
                    let sc = chars_of(s.as_str());
                    eq_str(sc.as_slice(), "completed") || eq_str(sc.as_slice(), "failed")
                },
                None => false,
            };
            if done {
                Ok(PollVerdict::Done)
            } else {
                Ok(PollVerdict::Continue)
            }
        },
    }
}

} // verus!
