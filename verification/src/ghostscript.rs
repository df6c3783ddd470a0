//! Ghostscript rendering: the command line, the output files of single-page
//! devices, and what Ghostscript's output says. Finding and running the
//! executable and reading the files it wrote is done by the application.
use vstd::prelude::*;

use crate::job_event::{event_is, EventEmitter, PrintStage};
use crate::text::{
    chars_of, dec, eq_str, int_text, lines, lines_of, push_dec, push_int, push_str, starts_with,
    starts_with_exec, string_of, views,
};

verus! {

/// Result of a Ghostscript rendering operation.
#[derive(Debug, Clone)]
pub struct RenderResult {
    /// For multi-page devices: the single output file. For single-page
    /// devices (jpeg/png): the first page file.
    pub output_path: String,
    /// All output page files: one for multi-page devices, one per page for
    /// single-page devices.
    pub page_files: Vec<String>,
    pub pages: u32,
    pub output_size: u64,
    pub duration_ms: u64,
    pub device: String,
}

/// The number of lines of `ls` that start with `Page `.
pub open spec fn page_lines(ls: Seq<Seq<char>>) -> nat
    decreases ls.len(),
{
    if ls.len() == 0 {
        0
    } else {
        page_lines(ls.drop_last()) + (if starts_with(ls.last(), "Page "@) {
            1nat
        } else {
            0nat
        })
    }
}

/// Parse the page count from Ghostscript's stderr, which has a line
/// `Page N` for each rendered page.
pub fn parse_page_count(stderr: &str) -> (r: u32)
    ensures
        r == page_lines(lines(stderr@)) as u32,
{
    let cs = chars_of(stderr);
    let ls = lines_of(cs.as_slice());
    let prefix = chars_of("Page ");
    let ghost all = views(ls@);
    let mut count: u64 = 0;
    let mut i: usize = 0;
    assert(all.take(0) =~= Seq::<Seq<char>>::empty());
    while i < ls.len()
        invariant
            i <= ls@.len(),
            all == views(ls@),
            prefix@ == "Page "@,
            count == page_lines(all.take(i as int)),
            count <= i,
        decreases ls@.len() - i,
    {
        assert(all.take(i + 1).drop_last() =~= all.take(i as int));
        assert(all[i as int] == ls@[i as int]@);
        if starts_with_exec(ls[i].as_slice(), prefix.as_slice()) {
            count = count + 1;
        }
        i = i + 1;
    }
    assert(all.take(ls@.len() as int) =~= all);
    #[verifier::truncate]
    (count as u32)
}

/// Devices that write one image per page.
pub open spec fn single_page_device(device: Seq<char>) -> bool {
    device == "jpeg"@ || device == "jpeggray"@ || device == "jpegcmyk"@ || device == "png16m"@
        || device == "pnggray"@ || device == "pngmono"@ || device == "pngalpha"@
}

/// Whether `device` writes one image file per page (JPEG and PNG devices).
pub fn is_single_page_device(device: &str) -> (r: bool)
    ensures
        r == single_page_device(device@),
{
    let d = chars_of(device);
    let d = d.as_slice();
    eq_str(d, "jpeg") || eq_str(d, "jpeggray") || eq_str(d, "jpegcmyk") || eq_str(d, "png16m")
        || eq_str(d, "pnggray") || eq_str(d, "pngmono") || eq_str(d, "pngalpha")
}

/// The file extension of a single-page device's page files.
pub open spec fn page_ext(device: Seq<char>) -> Seq<char> {
    if device == "jpeg"@ || device == "jpeggray"@ || device == "jpegcmyk"@ {
        "jpg"@
    } else {
        "png"@
    }
}

/// `jpg` for the JPEG devices, `png` otherwise.
pub fn page_extension(device: &str) -> (r: &'static str)
    ensures
        r@ == page_ext(device@),
{
    let d = chars_of(device);
    let d = d.as_slice();
    if eq_str(d, "jpeg") || eq_str(d, "jpeggray") || eq_str(d, "jpegcmyk") {
        "jpg"
    } else {
        "png"
    }
}

/// `{:03}`: the decimal rendering padded with zeros to three digits.
pub open spec fn pad3(n: nat) -> Seq<char> {
    if n < 10 {
        "00"@ + dec(n)
    } else if n < 100 {
        "0"@ + dec(n)
    } else {
        dec(n)
    }
}

/// The name of page `page` (from 1) of a single-page device's output
/// `stem`: `<stem>-<page, three digits>.<ext>`.
pub fn page_file_name(stem: &str, page: u32, ext: &str) -> (r: String)
    ensures
        r@ == stem@ + "-"@ + pad3(page as nat) + "."@ + ext@,
{
    let mut s = String::new();
    push_str(&mut s, stem);
    push_str(&mut s, "-");
    if page < 10 {
        push_str(&mut s, "00");
    } else if page < 100 {
        push_str(&mut s, "0");
    }
    push_dec(&mut s, page as u64);
    push_str(&mut s, ".");
    push_str(&mut s, ext);
    s
}

/// The `-sOutputFile` pattern of a single-page device: Ghostscript puts
/// the page number in place of `%03d`.
pub fn page_file_pattern(stem: &str, ext: &str) -> (r: String)
    ensures
        r@ == stem@ + "-%03d."@ + ext@,
{
    let mut s = String::new();
    push_str(&mut s, stem);
    push_str(&mut s, "-%03d.");
    push_str(&mut s, ext);
    s
}

/// Ghostscript's arguments before the input file: batch mode, safe mode,
/// the device, the resolution and the output file.
pub fn gs_args(device: &str, resolution: u32, output_file: &str) -> (r: Vec<String>)
    ensures
        r@.len() == 6,
        r@[0]@ == "-dNOPAUSE"@,
        r@[1]@ == "-dBATCH"@,
        r@[2]@ == "-dSAFER"@,
        r@[3]@ == "-sDEVICE="@ + device@,
        r@[4]@ == "-r"@ + dec(resolution as nat),
        r@[5]@ == "-sOutputFile="@ + output_file@,
{
    let mut d = String::new();
    push_str(&mut d, "-sDEVICE=");
    push_str(&mut d, device);
    let mut res = String::new();
    push_str(&mut res, "-r");
    push_dec(&mut res, resolution as u64);
    let mut o = String::new();
    push_str(&mut o, "-sOutputFile=");
    push_str(&mut o, output_file);
    let mut v: Vec<String> = Vec::new();
    v.push("-dNOPAUSE".to_owned());
    v.push("-dBATCH".to_owned());
    v.push("-dSAFER".to_owned());
    v.push(d);
    v.push(res);
    v.push(o);
    v
}

/// Emits the `Rendering` event: `Ghostscript <device> <dpi>dpi started`.
pub fn record_rendering(events: &mut EventEmitter, job_id: &str, device: &str, resolution: u32)
    ensures
        final(events).emitted().len() == old(events).emitted().len() + 1,
        final(events).emitted().drop_last() == old(events).emitted(),
        event_is(
            final(events).emitted().last(),
            job_id@,
            PrintStage::Rendering,
            true,
            "Ghostscript "@ + device@ + " "@ + dec(resolution as nat) + "dpi started"@,
            Seq::<char>::empty(),
            Seq::<char>::empty(),
        ),
{
    let mut d = String::new();
    push_str(&mut d, "Ghostscript ");
    push_str(&mut d, device);
    push_str(&mut d, " ");
    push_dec(&mut d, resolution as u64);
    push_str(&mut d, "dpi started");
    events.emit_ok(job_id, PrintStage::Rendering, d.as_str());
}

/// The failure of a Ghostscript run that exited with `code` (-1 when it
/// has none): the code and the last line of its stderr.
pub open spec fn exit_failure_text(code: Option<i32>, stderr: Seq<char>) -> Seq<char> {
    let ls = lines(stderr);
    "Ghostscript exit code "@ + int_text(
        match code {
            Some(c) => c as int,
            None => -1,
        },
    ) + ": "@ + (if ls.len() > 0 {
        ls.last()
    } else {
        "unknown error"@
    })
}

/// Fails a render whose Ghostscript run failed: emits the `Failed` event
/// and returns its detail.
pub fn record_exit_failure(events: &mut EventEmitter, job_id: &str, code: Option<i32>, stderr: &str) -> (r: String)
    ensures
        r@ == exit_failure_text(code, stderr@),
        final(events).emitted().len() == old(events).emitted().len() + 1,
        final(events).emitted().drop_last() == old(events).emitted(),
        event_is(final(events).emitted().last(), job_id@, PrintStage::Failed, false, r@, Seq::<char>::empty(), Seq::<char>::empty()),
{
    let cs = chars_of(stderr);
    let ls = lines_of(cs.as_slice());
    let mut d = String::new();
    push_str(&mut d, "Ghostscript exit code ");
    let c: i64 = match code {
        Some(c) => c as i64,
        None => -1,
    };
    push_int(&mut d, c);
    push_str(&mut d, ": ");
    if ls.len() > 0 {
        let last = string_of(ls[ls.len() - 1].as_slice());
        push_str(&mut d, last.as_str());
    } else {
        push_str(&mut d, "unknown error");
    }
    events.emit_fail(job_id, PrintStage::Failed, d.as_str());
    d
}

/// Why a finished render is refused, if it is: a single-page device wrote
/// no page file, or a multi-page device wrote an empty output file.
pub open spec fn render_output_refusal(single_page: bool, page_files: nat, output_size: nat) -> Option<Seq<char>> {
    if single_page {
        if page_files == 0 {
            Some("Ghostscript produced no output pages"@)
        } else {
            None
        }
    } else if output_size == 0 {
        Some("Ghostscript produced empty output file"@)
    } else {
        None
    }
}

/// Checks what a successful Ghostscript run left on disk: `page_files`
/// page files found (single-page devices) or an output file of
/// `output_size` bytes (multi-page devices). A render that left nothing is
/// refused with the `Failed` event and its detail; otherwise nothing is
/// emitted.
pub fn check_render_output(
    events: &mut EventEmitter,
    job_id: &str,
    single_page: bool,
    page_files: usize,
    output_size: u64,
) -> (r: Result<(), String>)
    ensures
        match render_output_refusal(single_page, page_files as nat, output_size as nat) {
            None => r is Ok && final(events).emitted() == old(events).emitted(),
            Some(m) => {
                &&& r matches Err(e) && e@ == m
                &&& final(events).emitted().len() == old(events).emitted().len() + 1
                &&& final(events).emitted().drop_last() == old(events).emitted()
                &&& event_is(
                    final(events).emitted().last(),
                    job_id@,
                    PrintStage::Failed,
                    false,
                    m,
                    Seq::<char>::empty(),
                    Seq::<char>::empty(),
                )
            },
        },
{
    let detail: &str = if single_page {
        if page_files == 0 {
            "Ghostscript produced no output pages"
        } else {
            return Ok(());
        }
    } else if output_size == 0 {
        "Ghostscript produced empty output file"
    } else {
        return Ok(());
    };
    events.emit_fail(job_id, PrintStage::Failed, detail);
    Err(detail.to_owned())
}

/// The page count of a render: what Ghostscript reported, or the number of
/// page files when it reported none.
pub fn effective_pages(reported: u32, page_files: usize) -> (r: u32)
    ensures
        r == (if reported == 0 { page_files as u32 } else { reported }),
{
    if reported == 0 {
        page_files as u32
    } else {
        reported
    }
}

} // verus!
