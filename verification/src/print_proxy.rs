//! HTTP print-proxy backend: the PDF is POSTed to a remote proxy that does
//! the printing, for clients that cannot reach the printer themselves. The
//! transfer (curl) is made by the application; this module reads curl's
//! reply and decides the job's outcome.
use vstd::prelude::*;

use crate::job_event::{event_is, EventEmitter, PrintStage};
use crate::text::{
    chars_of, join, join_exec, lines, lines_of, parse_uint, parse_uint_exec, prefix_upto, push_chars,
    push_dec, push_str, string_of, take_chars, trim, trim_str, views,
};

verus! {

#[derive(Debug)]
pub struct PrintProxyBackend {
    proxy_url: String,
}

impl PrintProxyBackend {
    pub closed spec fn url(&self) -> Seq<char> {
        self.proxy_url@
    }

    pub fn new(proxy_url: String) -> (r: Self)
        ensures
            r.url() == proxy_url@,
    {
        PrintProxyBackend { proxy_url }
    }

    pub fn name(&self) -> (r: &'static str)
        ensures
            r@ == "print_proxy"@,
    {
        "print_proxy"
    }

    /// The proxy's URL.
    pub fn proxy_url(&self) -> (r: &str)
        ensures
            r@ == self.url(),
    {
        self.proxy_url.as_str()
    }
}

/// The lines of curl's output (`-w "\n%{http_code}"`), trimmed as a whole.
pub open spec fn reply_lines(stdout: Seq<char>) -> Seq<Seq<char>> {
    lines(trim(stdout))
}

/// The HTTP status curl printed on the last line, 0 when it is not a number.
pub open spec fn reply_code(stdout: Seq<char>) -> u16 {
    let ls = reply_lines(stdout);
    if ls.len() == 0 {
        0
    } else {
        match parse_uint(ls.last(), 65535) {
            Some(v) => v as u16,
            None => 0,
        }
    }
}

/// The response body: every line but the last, joined with newlines.
pub open spec fn reply_body(stdout: Seq<char>) -> Seq<char> {
    let ls = reply_lines(stdout);
    if ls.len() > 1 {
        join(ls.drop_last(), '\n')
    } else {
        Seq::<char>::empty()
    }
}

/// Splits curl's output into the HTTP status and the response body.
pub fn parse_proxy_reply(stdout: &str) -> (r: (u16, String))
    ensures
        r.0 == reply_code(stdout@),
        r.1@ == reply_body(stdout@),
{
    let t = trim_str(stdout);
    let mut ls = lines_of(t.as_slice());
    if ls.len() == 0 {
        return (0, String::new());
    }
    let ghost all = views(ls@);
    let last = ls.pop().unwrap();
    assert(views(ls@) =~= all.drop_last());
    assert(last@ == all.last());
    let code: u16 = match parse_uint_exec(last.as_slice(), 65535) {
        Some(v) => v as u16,
        None => 0,
    };
    if ls.len() > 0 {
        let body = join_exec(&ls, '\n');
        (code, string_of(body.as_slice()))
    } else {
        (code, String::new())
    }
}

/// The detail of a proxy that could not be reached.
pub open spec fn unreachable_detail(stderr: Seq<char>) -> Seq<char> {
    "Proxy unreachable: "@ + prefix_upto(stderr, 200)
}

/// The detail of a proxy that answered with another status than 200.
pub open spec fn rejected_detail(code: u16, body: Seq<char>) -> Seq<char> {
    "Proxy error "@ + crate::text::dec(code as nat) + ": "@ + prefix_upto(body, 200)
}

/// Decides a proxied job from curl's outcome: curl failing (`curl_ok`
/// false) or any status but 200 fails the job; 200 completes it, with no
/// verification beyond the proxy's acceptance.
pub fn record_proxy_reply(
    events: &mut EventEmitter,
    job_id: &str,
    display: &str,
    proxy_url: &str,
    curl_ok: bool,
    stderr: &str,
    http_code: u16,
    body: &str,
) -> (r: Result<(), String>)
    ensures
        ({
            let n = old(events).emitted().len();
            if !curl_ok {
                &&& r matches Err(e) && e@ == "print proxy unreachable: "@ + stderr@
                &&& final(events).emitted().len() == n + 1
                &&& final(events).emitted().drop_last() == old(events).emitted()
                &&& event_is(final(events).emitted().last(), job_id@, PrintStage::Failed, false, unreachable_detail(stderr@), Seq::<char>::empty(), Seq::<char>::empty())
            } else if http_code == 200 {
                let ev = "Proxied to "@ + proxy_url@ + " — no local verification"@;
                &&& r is Ok
                &&& final(events).emitted().len() == n + 2
                &&& final(events).emitted().take(n as int) == old(events).emitted()
                &&& event_is(final(events).emitted()[n as int], job_id@, PrintStage::Verified, true, ev, "none"@, ev)
                &&& event_is(
                    final(events).emitted()[n + 1 as int],
                    job_id@,
                    PrintStage::Completed,
                    true,
                    "Printed via proxy for "@ + display@,
                    Seq::<char>::empty(),
                    Seq::<char>::empty(),
                )
            } else {
                &&& r matches Err(e) && e@ == "print proxy returned "@ + crate::text::dec(http_code as nat) + ": "@ + body@
                &&& final(events).emitted().len() == n + 1
                &&& final(events).emitted().drop_last() == old(events).emitted()
                &&& event_is(final(events).emitted().last(), job_id@, PrintStage::Failed, false, rejected_detail(http_code, body@), Seq::<char>::empty(), Seq::<char>::empty())
            }
        }),
{
    if !curl_ok {
        let mut d = String::new();
        push_str(&mut d, "Proxy unreachable: ");
        let head = take_chars(stderr, 200);
        push_str(&mut d, head.as_str());
        events.emit_fail(job_id, PrintStage::Failed, d.as_str());
        let mut e = String::new();
        push_str(&mut e, "print proxy unreachable: ");
        push_str(&mut e, stderr);
        return Err(e);
    }
    if http_code == 200 {
        let ghost n = events.emitted().len();
        let mut ev = String::new();
        push_str(&mut ev, "Proxied to ");
        push_str(&mut ev, proxy_url);
        push_str(&mut ev, " — no local verification");
        events.emit_verified(job_id, "none", ev.as_str());
        let mut c = String::new();
        push_str(&mut c, "Printed via proxy for ");
        push_str(&mut c, display);
        events.emit_ok(job_id, PrintStage::Completed, c.as_str());
        assert(events.emitted().take(n as int) =~= old(events).emitted());
        assert(events.emitted()[n as int] == events.emitted().drop_last().last());
        return Ok(());
    }
    let mut d = String::new();
    push_str(&mut d, "Proxy error ");
    push_dec(&mut d, http_code as u64);
    push_str(&mut d, ": ");
    let head = take_chars(body, 200);
    push_str(&mut d, head.as_str());
    events.emit_fail(job_id, PrintStage::Failed, d.as_str());
    let mut e = String::new();
    push_str(&mut e, "print proxy returned ");
    push_dec(&mut e, http_code as u64);
    push_str(&mut e, ": ");
    push_str(&mut e, body);
    Err(e)
}

} // verus!
