//! The client's receiver: it subscribes to the server's print jobs,
//! downloads each payload, prints it through the configured backend under a
//! per-job timeout, and reports the outcome. The gRPC streams, the file
//! system and the waiting are the application's; the identity, the
//! messages, the audit events and every decision taken on the way are here.
use vstd::prelude::*;

use sha2::Digest;

use crate::backend::{create_backend, Backend};
use crate::config::{ClientConfig, JobsConfig, SerialBridgeClientConfig};
use crate::inflight::{dispatch_outcome, dispatch_result, InFlightGuard, InFlightJobs, PrintDispatch};
use crate::job::{JobMetadata, JobState};
use crate::job_event::{event_is, last_verification_of, unix_now, EventEmitter, PrintJobEvent, PrintStage};
use crate::sizes::{format_size, size_text};
use crate::text::{chars_of, clone_opt, hex_char, opt_chars, push_char, push_str, string_of};

pub use crate::sizes::format_size as format_download_size;

verus! {

// ---------------------------------------------------------------------------
// Identity
// ---------------------------------------------------------------------------

/// The SHA-256 digest of `data`.
pub uninterp spec fn sha256_digest(data: Seq<u8>) -> Seq<u8>;

/// `sha2::Sha256::digest`: the digest of `data`, named; it is 32 bytes long
/// (the output size of SHA-256).
#[verifier::external_body]
fn sha256(data: &[u8]) -> (r: Vec<u8>)
    ensures
        r@ == sha256_digest(data@),
        r@.len() == 32,
{
    sha2::Sha256::digest(data).to_vec()
}

/// `hostname::get()` read as text (`to_string_lossy`), `None` when the
/// system call fails. Nothing is stated of the name: it is the machine's.
#[verifier::external_body]
fn system_hostname() -> Option<String> {
    match hostname::get() {
        Ok(h) => Some(h.to_string_lossy().to_string()),
        Err(_) => None,
    }
}

/// The host name a client goes by: the one the system gave, or `unknown`
/// when it could not be read.
pub fn host_or_unknown(h: Option<String>) -> (r: String)
    ensures
        r@ == (match h {
            Some(n) => n@,
            None => "unknown"@,
        }),
{
    match h {
        Some(n) => n,
        None => "unknown".to_owned(),
    }
}

/// `{:x}` of a byte array: two lower-case hexadecimal digits per byte.
pub open spec fn hex_bytes(b: Seq<u8>) -> Seq<char>
    decreases b.len(),
{
    if b.len() == 0 {
        Seq::<char>::empty()
    } else {
        hex_bytes(b.drop_last()) + seq![hex_char((b.last() / 16) as nat), hex_char((b.last() % 16) as nat)]
    }
}

proof fn lemma_hex_bytes_len(b: Seq<u8>)
    ensures
        hex_bytes(b).len() == 2 * b.len(),
        forall|i: int| 0 <= i < hex_bytes(b).len() ==> is_lower_hex(#[trigger] hex_bytes(b)[i]),
    decreases b.len(),
{
    if b.len() > 0 {
        lemma_hex_bytes_len(b.drop_last());
        let h = hex_bytes(b.drop_last());
        assert forall|i: int| 0 <= i < hex_bytes(b).len() implies is_lower_hex(#[trigger] hex_bytes(b)[i]) by {
            if i >= h.len() {
                let d = if i == h.len() { (b.last() / 16) as nat } else { (b.last() % 16) as nat };
                assert(hex_bytes(b)[i] == hex_char(d));
            } else {
                assert(hex_bytes(b)[i] == h[i]);
            }
        }
    }
}

/// An ASCII hexadecimal digit in lower case.
pub open spec fn is_lower_hex(c: char) -> bool {
    ('0' <= c && c <= '9') || ('a' <= c && c <= 'f')
}

fn push_hex_bytes(s: &mut String, b: &[u8])
    ensures
        final(s)@ == old(s)@ + hex_bytes(b@),
{
    let mut i: usize = 0;
    assert(b@.take(0) =~= Seq::<u8>::empty());
    while i < b.len()
        invariant
            i <= b@.len(),
            s@ == old(s)@ + hex_bytes(b@.take(i as int)),
        decreases b@.len() - i,
    {
        let x = b[i];
        let hi = x / 16;
        let lo = x % 16;
        let ch: char = if hi < 10 { (48 + hi) as char } else { (87 + hi) as char };
        let cl: char = if lo < 10 { (48 + lo) as char } else { (87 + lo) as char };
        push_char(s, ch);
        push_char(s, cl);
        assert(b@.take(i + 1).drop_last() =~= b@.take(i as int));
        i = i + 1;
        assert(s@ =~= old(s)@ + hex_bytes(b@.take(i as int)));
    }
    assert(b@.take(b@.len() as int) =~= b@);
}

/// The lower-case hexadecimal SHA-256 of the UTF-8 text `s`.
pub open spec fn sha256_hex(s: Seq<char>) -> Seq<char> {
    hex_bytes(sha256_digest(vstd::utf8::encode_utf8(s)))
}

/// The id a client registers under: the configured `client_id`, else the
/// first 16 hexadecimal digits of the SHA-256 of the host name.
pub open spec fn machine_id_for(client_id: Option<Seq<char>>, hostname: Seq<char>) -> Seq<char> {
    match client_id {
        Some(id) => id,
        None => sha256_hex(hostname).take(16),
    }
}

/// Computes [`machine_id_for`].
pub fn derive_machine_id(client_id: &Option<String>, hostname: &str) -> (r: String)
    ensures
        r@ == machine_id_for(
            match client_id {
                Some(id) => Some(id@),
                None => None,
            },
            hostname@,
        ),
        client_id is None ==> r@.len() == 16 && forall|i: int| 0 <= i < 16 ==> is_lower_hex(#[trigger] r@[i]),
{
    match client_id {
        Some(id) => id.clone(),
        None => {
            let digest = sha256(hostname.as_bytes());
            let mut hex = String::new();
            push_hex_bytes(&mut hex, digest.as_slice());
            proof {
                lemma_hex_bytes_len(digest@);
            }
            let cs = chars_of(hex.as_str());
            let head = crate::text::sub_vec(cs.as_slice(), 0, 16);
            assert(head@ =~= hex@.take(16));
            string_of(head.as_slice())
        },
    }
}

// ---------------------------------------------------------------------------
// The receiver
// ---------------------------------------------------------------------------

/// gRPC client that subscribes to print jobs from the server.
#[derive(Debug)]
pub struct Receiver {
    server_address: String,
    machine_id: String,
    hostname: String,
    reconnect_interval_secs: u64,
    max_reconnect_interval_secs: u64,
    print_backend: String,
    printer_address: Option<String>,
    ghostscript_device: String,
    ghostscript_resolution: u32,
    printer_tls: bool,
    printer_display_name: Option<String>,
    virtual_printer_name: Option<String>,
    print_proxy_url: Option<String>,
    serial_bridge_config: SerialBridgeClientConfig,
    /// Per-job hard timeout for the print task, from `[jobs] print_timeout_secs`.
    print_timeout_secs: u64,
    /// The job ids with a live print task. It survives reconnects, so a
    /// requeued retry on a fresh connection is refused while the first
    /// task drains.
    inflight: InFlightJobs,
}

impl Receiver {
    pub closed spec fn machine_id_spec(&self) -> Seq<char> {
        self.machine_id@
    }

    pub closed spec fn hostname_spec(&self) -> Seq<char> {
        self.hostname@
    }

    pub closed spec fn timeout_spec(&self) -> u64 {
        self.print_timeout_secs
    }

    pub closed spec fn backend_spec(&self) -> Seq<char> {
        self.print_backend@
    }

    pub closed spec fn server_spec(&self) -> Seq<char> {
        self.server_address@
    }

    pub closed spec fn reconnect_spec(&self) -> (u64, u64) {
        (self.reconnect_interval_secs, self.max_reconnect_interval_secs)
    }

    pub closed spec fn virtual_printer_spec(&self) -> Option<Seq<char>> {
        match self.virtual_printer_name {
            Some(n) => Some(n@),
            None => None,
        }
    }

    pub closed spec fn address_opt(&self) -> Option<Seq<char>> {
        match self.printer_address {
            Some(a) => Some(a@),
            None => None,
        }
    }

    pub closed spec fn proxy_opt(&self) -> Option<Seq<char>> {
        match self.print_proxy_url {
            Some(u) => Some(u@),
            None => None,
        }
    }

    pub closed spec fn render_spec(&self) -> (Seq<char>, u32, bool) {
        (self.ghostscript_device@, self.ghostscript_resolution, self.printer_tls)
    }

    pub closed spec fn display_opt(&self) -> Option<String> {
        self.printer_display_name
    }

    pub closed spec fn inflight_ids(&self) -> Set<Seq<char>> {
        self.inflight@
    }

    pub closed spec fn serial_bridge_spec(&self) -> (bool, Seq<char>, u32) {
        (self.serial_bridge_config.enabled, self.serial_bridge_config.port@, self.serial_bridge_config.baud_rate)
    }

    /// A receiver for `config`; its machine id is the configured client id,
    /// or derived from the host name (`unknown` when it cannot be read).
    pub fn new(config: &ClientConfig, jobs: &JobsConfig) -> (r: Self)
        ensures
            r.machine_id_spec() == machine_id_for(
                match config.client_id {
                    Some(id) => Some(id@),
                    None => None,
                },
                r.hostname_spec(),
            ),
            config.client_id is None ==> r.machine_id_spec().len() == 16 && forall|i: int|
                0 <= i < 16 ==> is_lower_hex(#[trigger] r.machine_id_spec()[i]),
            r.timeout_spec() == jobs.print_timeout_secs,
            r.backend_spec() == config.print_backend@,
            r.server_spec() == config.server_address@,
            r.reconnect_spec() == (config.reconnect_interval_secs, config.max_reconnect_interval_secs),
            r.virtual_printer_spec() == (match config.virtual_printer_name {
                Some(n) => Some(n@),
                None => None,
            }),
            r.inflight_ids() == Set::<Seq<char>>::empty(),
            r.address_opt() == opt_chars(config.printer_address),
            r.proxy_opt() == opt_chars(config.print_proxy_url),
            opt_chars(r.display_opt()) == opt_chars(config.printer_display_name),
            r.render_spec() == (config.ghostscript_device@, config.ghostscript_resolution, config.printer_tls),
            r.serial_bridge_spec() == (
                config.serial_bridge.enabled,
                config.serial_bridge.port@,
                config.serial_bridge.baud_rate,
            ),
    {
        let hostname = host_or_unknown(system_hostname());
        let machine_id = derive_machine_id(&config.client_id, hostname.as_str());
        Receiver {
            server_address: config.server_address.clone(),
            machine_id,
            hostname,
            reconnect_interval_secs: config.reconnect_interval_secs,
            max_reconnect_interval_secs: config.max_reconnect_interval_secs,
            print_backend: config.print_backend.clone(),
            printer_address: clone_opt(&config.printer_address),
            ghostscript_device: config.ghostscript_device.clone(),
            ghostscript_resolution: config.ghostscript_resolution,
            printer_tls: config.printer_tls,
            printer_display_name: clone_opt(&config.printer_display_name),
            virtual_printer_name: clone_opt(&config.virtual_printer_name),
            print_proxy_url: clone_opt(&config.print_proxy_url),
            serial_bridge_config: SerialBridgeClientConfig {
                enabled: config.serial_bridge.enabled,
                port: config.serial_bridge.port.clone(),
                baud_rate: config.serial_bridge.baud_rate,
            },
            print_timeout_secs: jobs.print_timeout_secs,
            inflight: InFlightJobs::new(),
        }
    }

    /// The id this client registers under.
    pub fn machine_id(&self) -> (r: &str)
        ensures
            r@ == self.machine_id_spec(),
    {
        self.machine_id.as_str()
    }

    /// The host name read when the receiver was made.
    pub fn hostname(&self) -> (r: &str)
        ensures
            r@ == self.hostname_spec(),
    {
        self.hostname.as_str()
    }

    /// The per-job timeout of the print task, in seconds.
    pub fn print_timeout_secs(&self) -> (r: u64)
        ensures
            r == self.timeout_spec(),
    {
        self.print_timeout_secs
    }

    /// The configured backend name.
    pub fn print_backend(&self) -> (r: &str)
        ensures
            r@ == self.backend_spec(),
    {
        self.print_backend.as_str()
    }

    /// The server's `host:port`.
    pub fn server_address(&self) -> (r: &str)
        ensures
            r@ == self.server_spec(),
    {
        self.server_address.as_str()
    }

    /// The first wait before reconnecting, in seconds.
    pub fn reconnect_interval_secs(&self) -> (r: u64)
        ensures
            r == self.reconnect_spec().0,
    {
        self.reconnect_interval_secs
    }

    /// The longest wait before reconnecting, in seconds.
    pub fn max_reconnect_interval_secs(&self) -> (r: u64)
        ensures
            r == self.reconnect_spec().1,
    {
        self.max_reconnect_interval_secs
    }

    /// The serial bridge settings.
    pub fn serial_bridge_config(&self) -> (r: &SerialBridgeClientConfig)
        ensures
            (r.enabled, r.port@, r.baud_rate) == self.serial_bridge_spec(),
    {
        &self.serial_bridge_config
    }

    /// The backend for a job on `target_printer`, built from the receiver's
    /// settings as [`create_backend`] builds it.
    pub fn backend_for(&self, target_printer: &str) -> (r: Result<Backend, String>)
        ensures
            crate::backend::backend_outcome(
                self.backend_spec(),
                self.address_opt(),
                self.render_spec().0,
                self.render_spec().1,
                target_printer@,
                self.render_spec().2,
                self.proxy_opt(),
                r,
            ),
    {
        let addr: Option<&str> = match &self.printer_address {
            Some(a) => Some(a.as_str()),
            None => None,
        };
        let proxy: Option<&str> = match &self.print_proxy_url {
            Some(u) => Some(u.as_str()),
            None => None,
        };
        create_backend(
            self.print_backend.as_str(),
            addr,
            self.ghostscript_device.as_str(),
            self.ghostscript_resolution,
            target_printer,
            self.printer_tls,
            proxy,
        )
    }

    /// The descriptor a backend gets for job `job` on `printer`.
    pub fn job_info(&self, job: &PrintJob, printer: &str) -> (r: crate::backend::PrintJobInfo)
        ensures
            r.job_id@ == job.job_id@,
            r.document_name@ == job.document_name@,
            r.copies == job.copies,
            !r.duplex,
            r.color,
            r.printer_name@ == printer@,
            r.printer_display_name == self.display_opt(),
    {
        crate::backend::PrintJobInfo {
            job_id: job.job_id.clone(),
            document_name: job.document_name.clone(),
            copies: job.copies,
            duplex: false,
            color: true,
            printer_name: printer.to_owned(),
            printer_display_name: self.printer_display_name.clone(),
        }
    }

    /// Claims the in-flight slot of `job_id` for a print task; `None` when a
    /// task for that job is still alive (the second dispatch is suppressed).
    pub fn begin_print(&mut self, job_id: &str) -> (r: Option<InFlightGuard>)
        ensures
            old(self).inflight_ids().contains(job_id@) ==> r is None && final(self).inflight_ids()
                == old(self).inflight_ids(),
            !old(self).inflight_ids().contains(job_id@) ==> (r matches Some(g) && g.id() == job_id@
                && final(self).inflight_ids() == old(self).inflight_ids().insert(job_id@)),
            final(self).machine_id_spec() == old(self).machine_id_spec(),
            final(self).timeout_spec() == old(self).timeout_spec(),
            final(self).backend_spec() == old(self).backend_spec(),
    {
        self.inflight.try_begin(job_id)
    }

    /// Frees the in-flight slot once the print task has stopped.
    pub fn end_print(&mut self, guard: InFlightGuard)
        ensures
            final(self).inflight_ids() == old(self).inflight_ids().remove(guard.id()),
            final(self).machine_id_spec() == old(self).machine_id_spec(),
            final(self).timeout_spec() == old(self).timeout_spec(),
            final(self).backend_spec() == old(self).backend_spec(),
    {
        self.inflight.release(guard)
    }
}

} // verus!

verus! {

// ---------------------------------------------------------------------------
// Jobs and their reports
// ---------------------------------------------------------------------------

/// A print job as the server streams it. `created_at` is the protobuf
/// timestamp (seconds, nanoseconds) when the server sent one.
#[derive(Debug, Clone)]
pub struct PrintJob {
    pub job_id: String,
    pub target_printer: String,
    pub document_name: String,
    pub copies: u32,
    pub paper_size: String,
    pub duplex: bool,
    pub color: bool,
    pub payload_size: u64,
    pub payload_sha256: String,
    pub created_at: Option<(i64, i32)>,
    pub retry_count: u32,
}

/// The report of a finished job sent back to the server.
#[derive(Debug, Clone)]
pub struct JobCompletion {
    pub job_id: String,
    pub success: bool,
    pub error_detail: String,
    pub pages_printed: u32,
    pub printer_status: String,
    pub spooler_status: String,
    pub verification_method: String,
    pub verification_evidence: String,
    pub client_id: String,
}

/// What the client tells the server about itself when it subscribes.
#[derive(Debug, Clone)]
pub struct ClientIdentity {
    pub machine_id: String,
    pub hostname: String,
    pub printer_names: Vec<String>,
    pub client_version: String,
    pub virtual_printer_name: String,
}

/// The protobuf `JobState` a pipeline stage is reported as.
pub open spec fn proto_state(stage: PrintStage) -> i32 {
    match stage {
        PrintStage::Received | PrintStage::Routed | PrintStage::Retrying => 1,
        PrintStage::Downloading | PrintStage::Downloaded => 2,
        PrintStage::Rendering | PrintStage::Rendered => 7,
        PrintStage::Sending | PrintStage::Sent | PrintStage::Acknowledged | PrintStage::Verified => 8,
        PrintStage::Completed => 4,
        PrintStage::Failed => 5,
    }
}

/// Map a `PrintStage` to the protobuf `JobState` number: 1 queued,
/// 2 downloading, 7 rendering, 8 sending, 4 completed, 5 failed.
pub fn print_stage_to_proto_state(stage: PrintStage) -> (r: i32)
    ensures
        r == proto_state(stage),
{
    match stage {
        PrintStage::Received | PrintStage::Routed => 1,
        PrintStage::Downloading | PrintStage::Downloaded => 2,
        PrintStage::Rendering | PrintStage::Rendered => 7,
        PrintStage::Sending | PrintStage::Sent | PrintStage::Acknowledged | PrintStage::Verified => 8,
        PrintStage::Completed => 4,
        PrintStage::Failed => 5,
        PrintStage::Retrying => 1,
    }
}

/// The protobuf state an audit event is streamed to the server with;
/// `None` for `Received` and `Routed`, which the server recorded itself.
pub fn forwarded_state(event: &PrintJobEvent) -> (r: Option<i32>)
    ensures
        r == (if event.stage == PrintStage::Received || event.stage == PrintStage::Routed {
            None
        } else {
            Some(proto_state(event.stage))
        }),
{
    if event.stage == PrintStage::Received || event.stage == PrintStage::Routed {
        None
    } else {
        Some(print_stage_to_proto_state(event.stage))
    }
}

/// Whether `chrono::DateTime::from_timestamp(secs, nanos)` is a time:
/// `secs` falls between the first second of -262143-01-01 and the last of
/// 262142-12-31 (chrono's years), and `nanos` is below one second, or below
/// two on a second that ends a minute (a leap second).
pub open spec fn utc_timestamp_valid(secs: i64, nanos: u32) -> bool {
    &&& -8_334_601_228_800 <= secs <= 8_210_266_876_799
    &&& (nanos < 1_000_000_000 || (nanos < 2_000_000_000 && secs % 60 == 59))
}

/// `chrono::DateTime::from_timestamp(secs, nanos).is_some()`.
#[verifier::external_body]
fn utc_timestamp_ok(secs: i64, nanos: u32) -> (r: bool)
    ensures
        r == utc_timestamp_valid(secs, nanos),
{
    chrono::DateTime::from_timestamp(secs, nanos).is_some()
}

/// The creation time a job is recorded with: the server's timestamp when
/// chrono accepts it (nanoseconds read as `u32`).
pub open spec fn created_at_of(job: PrintJob) -> Option<i64> {
    match job.created_at {
        Some((secs, nanos)) => if utc_timestamp_valid(secs, nanos as u32) {
            Some(secs)
        } else {
            None
        },
        None => None,
    }
}

/// Convert a streamed `PrintJob` to the `JobMetadata` kept in the local
/// history, on the printer it is printed on. The retry count mirrors the
/// server's (the server is its source of truth). A job without a usable
/// creation time is stamped with the current time, and `updated_at` is the
/// current time.
pub fn job_to_metadata(job: &PrintJob, target_printer: &str) -> (r: JobMetadata)
    ensures
        r.job_id@ == job.job_id@,
        r.document_name@ == job.document_name@,
        r.target_printer@ == target_printer@,
        r.target_client_id is None,
        r.copies == job.copies,
        r.paper_size@ == job.paper_size@,
        r.duplex == job.duplex,
        r.color == job.color,
        r.payload_size == job.payload_size,
        r.payload_sha256@ == job.payload_sha256@,
        r.state == JobState::Downloading,
        r.retry_count == job.retry_count,
        r.error_detail@ == Seq::<char>::empty(),
        r.requesting_user is None,
        created_at_of(*job) matches Some(t) ==> r.created_at == t,
{
    let created_at: i64 = match job.created_at {
        Some((secs, nanos)) => if utc_timestamp_ok(secs, nanos as u32) {
            secs
        } else {
            unix_now()
        },
        None => unix_now(),
    };
    JobMetadata {
        job_id: job.job_id.clone(),
        document_name: job.document_name.clone(),
        target_printer: target_printer.to_owned(),
        target_client_id: None,
        copies: job.copies,
        paper_size: job.paper_size.clone(),
        duplex: job.duplex,
        color: job.color,
        payload_size: job.payload_size,
        payload_sha256: job.payload_sha256.clone(),
        state: JobState::Downloading,
        retry_count: job.retry_count,
        error_detail: String::new(),
        requesting_user: None,
        created_at,
        updated_at: unix_now(),
    }
}

/// The state a job ends in locally: `Completed` or `Failed`.
pub fn final_state(success: bool) -> (r: JobState)
    ensures
        r == (if success { JobState::Completed } else { JobState::Failed }),
{
    if success {
        JobState::Completed
    } else {
        JobState::Failed
    }
}

/// The result of checking a downloaded payload against the digest the
/// server announced.
pub open spec fn payload_check(expected: Seq<char>, data: Seq<u8>) -> Result<(), Seq<char>> {
    let actual = hex_bytes(sha256_digest(data));
    if actual == expected {
        Ok(())
    } else {
        Err("SHA256 mismatch: expected "@ + expected + ", got "@ + actual)
    }
}

/// Checks a downloaded payload: its lower-case hexadecimal SHA-256 must be
/// exactly the digest the server announced.
pub fn check_payload(expected_sha256: &str, data: &[u8]) -> (r: Result<(), String>)
    ensures
        match payload_check(expected_sha256@, data@) {
            Ok(()) => r is Ok,
            Err(m) => r matches Err(e) && e@ == m,
        },
{
    let digest = sha256(data);
    let mut actual = String::new();
    push_hex_bytes(&mut actual, digest.as_slice());
    let a = chars_of(actual.as_str());
    let e = chars_of(expected_sha256);
    if crate::text::chars_eq(a.as_slice(), e.as_slice()) {
        Ok(())
    } else {
        let mut m = String::new();
        push_str(&mut m, "SHA256 mismatch: expected ");
        push_str(&mut m, expected_sha256);
        push_str(&mut m, ", got ");
        push_str(&mut m, actual.as_str());
        Err(m)
    }
}

/// The wait before reconnecting after a backoff of `backoff_secs`: at least
/// one second.
pub open spec fn reconnect_delay(backoff_secs: int) -> int {
    if backoff_secs < 1 {
        1
    } else {
        backoff_secs
    }
}

/// The wait before reconnecting: the backoff, but at least one second, so
/// the serial reader has released its port before the next connection.
pub fn reconnect_delay_secs(backoff_secs: u64) -> (r: u64)
    ensures
        r == reconnect_delay(backoff_secs as int),
{
    if backoff_secs < 1 {
        1
    } else {
        backoff_secs
    }
}

/// The backoff after one of `backoff_secs`: doubled, at most `max_secs`.
pub open spec fn reconnect_step(backoff_secs: int, max_secs: int) -> int {
    if 2 * backoff_secs < max_secs {
        2 * backoff_secs
    } else {
        max_secs
    }
}

/// The backoff after a failed connection: doubled, at most `max_secs`.
pub fn next_reconnect_backoff(backoff_secs: u64, max_secs: u64) -> (r: u64)
    requires
        2 * backoff_secs <= u64::MAX,
    ensures
        r == reconnect_step(backoff_secs as int, max_secs as int),
{
    let d = backoff_secs * 2;
    if d < max_secs {
        d
    } else {
        max_secs
    }
}

/// The backoff after `n` failed connections, starting from `first_secs`.
pub open spec fn reconnect_backoff(first_secs: int, max_secs: int, n: nat) -> int
    decreases n,
{
    if n == 0 {
        first_secs
    } else {
        reconnect_step(reconnect_backoff(first_secs, max_secs, (n - 1) as nat), max_secs)
    }
}

/// Reconnecting backs off without bound on failures but never beyond the
/// configured maximum: starting from an interval no longer than the
/// maximum, every backoff lies between the two, and the wait before each
/// attempt is at least one second.
pub proof fn law_reconnect_backoff_capped(first_secs: int, max_secs: int, n: nat)
    requires
        0 <= first_secs <= max_secs,
    ensures
        first_secs <= reconnect_backoff(first_secs, max_secs, n) <= max_secs,
        n > 0 ==> reconnect_backoff(first_secs, max_secs, (n - 1) as nat) <= reconnect_backoff(
            first_secs,
            max_secs,
            n,
        ),
        reconnect_delay(reconnect_backoff(first_secs, max_secs, n)) >= 1,
    decreases n,
{
    if n > 0 {
        law_reconnect_backoff_capped(first_secs, max_secs, (n - 1) as nat);
    }
}

impl Receiver {
    /// What the client announces when it subscribes: the printers it could
    /// list, or only `target` when listing failed, and its virtual printer
    /// name (empty when none is configured).
    pub fn identity(&self, listed: Option<Vec<String>>, target: String, version: &str) -> (r: ClientIdentity)
        ensures
            r.machine_id@ == self.machine_id_spec(),
            r.hostname@ == self.hostname_spec(),
            r.printer_names@ == (match listed {
                Some(v) => v@,
                None => seq![target],
            }),
            r.client_version@ == version@,
            r.virtual_printer_name@ == (match self.virtual_printer_spec() {
                Some(n) => n,
                None => Seq::<char>::empty(),
            }),
    {
        let printer_names = match listed {
            Some(v) => v,
            None => {
                let mut v: Vec<String> = Vec::new();
                v.push(target);
                v
            },
        };
        ClientIdentity {
            machine_id: self.machine_id.clone(),
            hostname: self.hostname.clone(),
            printer_names,
            client_version: version.to_owned(),
            virtual_printer_name: match &self.virtual_printer_name {
                Some(n) => n.clone(),
                None => String::new(),
            },
        }
    }

    /// Emits the events that open a job's local timeline: `Received` (with
    /// the payload size), `Routed` (server printer to this client) and
    /// `Downloading`.
    pub fn record_received(&self, events: &mut EventEmitter, job: &PrintJob)
        ensures
            ({
                let n = old(events).emitted().len();
                let ev = final(events).emitted();
                &&& ev.len() == n + 3
                &&& ev.take(n as int) == old(events).emitted()
                &&& event_is(ev[n as int], job.job_id@, PrintStage::Received, true,
                    "Print job received ("@ + size_text(job.payload_size) + ")"@, Seq::<char>::empty(), Seq::<char>::empty())
                &&& event_is(ev[n + 1 as int], job.job_id@, PrintStage::Routed, true,
                    job.target_printer@ + " → "@ + self.machine_id_spec(), Seq::<char>::empty(), Seq::<char>::empty())
                &&& event_is(ev[n + 2 as int], job.job_id@, PrintStage::Downloading, true,
                    "Client started payload download"@, Seq::<char>::empty(), Seq::<char>::empty())
            }),
    {
        let ghost n = events.emitted().len();
        let mut d = String::new();
        push_str(&mut d, "Print job received (");
        let size = format_size(job.payload_size);
        push_str(&mut d, size.as_str());
        push_str(&mut d, ")");
        events.emit_ok(job.job_id.as_str(), PrintStage::Received, d.as_str());
        let ghost e1 = events.emitted();
        let mut r = String::new();
        push_str(&mut r, job.target_printer.as_str());
        push_str(&mut r, " → ");
        push_str(&mut r, self.machine_id.as_str());
        events.emit_ok(job.job_id.as_str(), PrintStage::Routed, r.as_str());
        let ghost e2 = events.emitted();
        events.emit_ok(job.job_id.as_str(), PrintStage::Downloading, "Client started payload download");
        assert(events.emitted().take(n as int) =~= old(events).emitted()) by {
            assert(e1.take(n as int) =~= old(events).emitted());
            assert(e2.take(n as int) =~= e1.take(n as int));
            assert(events.emitted().take(n as int) =~= e2.take(n as int));
        }
        assert(events.emitted()[n as int] == e1.last());
        assert(events.emitted()[n + 1 as int] == e2.last());
    }

    /// Emits `Downloaded` once the payload's digest checked out.
    pub fn record_downloaded(&self, events: &mut EventEmitter, job_id: &str, file_size: u64)
        ensures
            final(events).emitted().len() == old(events).emitted().len() + 1,
            final(events).emitted().drop_last() == old(events).emitted(),
            event_is(final(events).emitted().last(), job_id@, PrintStage::Downloaded, true,
                "SHA256 verified ("@ + size_text(file_size) + ")"@, Seq::<char>::empty(), Seq::<char>::empty()),
    {
        let mut d = String::new();
        push_str(&mut d, "SHA256 verified (");
        let size = format_size(file_size);
        push_str(&mut d, size.as_str());
        push_str(&mut d, ")");
        events.emit_ok(job_id, PrintStage::Downloaded, d.as_str());
    }

    /// A job whose download failed: emits the `Failed` event and returns
    /// the report for the server (`download_failed`, nothing printed).
    pub fn record_download_failed(&self, events: &mut EventEmitter, job_id: &str, error: &str) -> (r: JobCompletion)
        ensures
            download_failure_recorded(old(events).emitted(), final(events).emitted(), job_id@, error@),
            download_failed_report(r, job_id@, error@, self.machine_id_spec()),
    {
        let mut d = String::new();
        push_str(&mut d, "Download failed: ");
        push_str(&mut d, error);
        events.emit_fail(job_id, PrintStage::Failed, d.as_str());
        JobCompletion {
            job_id: job_id.to_owned(),
            success: false,
            error_detail: error.to_owned(),
            pages_printed: 0,
            printer_status: String::new(),
            spooler_status: "download_failed".to_owned(),
            verification_method: String::new(),
            verification_evidence: String::new(),
            client_id: self.machine_id.clone(),
        }
    }

    /// The report of a printed (or failed) job: the copies count as printed
    /// pages on success, the backend as the spooler status, and the
    /// verification of the job's last event that carries one.
    pub fn completion_for(&self, job: &PrintJob, result: &Result<(), String>, events: &EventEmitter) -> (r: JobCompletion)
        ensures
            print_report(
                r,
                job.job_id@,
                job.copies,
                result_view(*result),
                self.backend_spec(),
                self.machine_id_spec(),
                events.emitted(),
            ),
    {
        let (method, evidence) = events.last_verification();
        let (success, detail) = match result {
            Ok(()) => (true, String::new()),
            Err(e) => (false, e.clone()),
        };
        JobCompletion {
            job_id: job.job_id.clone(),
            success,
            error_detail: detail,
            pages_printed: if success { job.copies } else { 0 },
            printer_status: if success { "delivered".to_owned() } else { "error".to_owned() },
            spooler_status: self.print_backend.clone(),
            verification_method: method,
            verification_evidence: evidence,
            client_id: self.machine_id.clone(),
        }
    }
}

} // verus!

verus! {

// ---------------------------------------------------------------------------
// One job through the client: download, print, report, clean up
// ---------------------------------------------------------------------------

/// A print result with its error taken by its characters.
pub open spec fn result_view(r: Result<(), String>) -> Result<(), Seq<char>> {
    match r {
        Ok(()) => Ok(()),
        Err(e) => Err(e@),
    }
}

/// `c` reports a job printed (or not) with `result`: the copies count as
/// printed pages on success, the backend as the spooler status, and the
/// verification of the job's last event that carries one.
pub open spec fn print_report(
    c: JobCompletion,
    job_id: Seq<char>,
    copies: u32,
    result: Result<(), Seq<char>>,
    backend: Seq<char>,
    machine_id: Seq<char>,
    evs: Seq<PrintJobEvent>,
) -> bool {
    &&& c.job_id@ == job_id
    &&& c.success == result is Ok
    &&& c.error_detail@ == (match result {
        Ok(()) => Seq::<char>::empty(),
        Err(e) => e,
    })
    &&& c.pages_printed == (if result is Ok { copies } else { 0 })
    &&& c.printer_status@ == (if result is Ok { "delivered"@ } else { "error"@ })
    &&& c.spooler_status@ == backend
    &&& (c.verification_method@, c.verification_evidence@) == last_verification_of(evs)
    &&& c.client_id@ == machine_id
}

/// `c` reports a job whose download failed with `error`: nothing printed,
/// `download_failed` as the spooler status, no verification.
pub open spec fn download_failed_report(c: JobCompletion, job_id: Seq<char>, error: Seq<char>, machine_id: Seq<char>) -> bool {
    &&& c.job_id@ == job_id
    &&& !c.success
    &&& c.error_detail@ == error
    &&& c.pages_printed == 0
    &&& c.printer_status@ == Seq::<char>::empty()
    &&& c.spooler_status@ == "download_failed"@
    &&& c.verification_method@ == Seq::<char>::empty()
    &&& c.verification_evidence@ == Seq::<char>::empty()
    &&& c.client_id@ == machine_id
}

/// `after` is `before` with the `Failed` event of a failed download added.
pub open spec fn download_failure_recorded(
    before: Seq<PrintJobEvent>,
    after: Seq<PrintJobEvent>,
    job_id: Seq<char>,
    error: Seq<char>,
) -> bool {
    &&& after.len() == before.len() + 1
    &&& after.drop_last() == before
    &&& event_is(
        after.last(),
        job_id,
        PrintStage::Failed,
        false,
        "Download failed: "@ + error,
        Seq::<char>::empty(),
        Seq::<char>::empty(),
    )
}

/// Where a received job stands.
#[derive(Debug, Clone, Copy, PartialEq, Eq, Structural)]
pub enum JobPhase {
    /// Its payload is being downloaded.
    Downloading,
    /// It is being printed.
    Printing,
    /// Its report is being sent to the server.
    Reporting,
    /// Its spool file is gone; nothing more happens to it.
    Done,
}

/// What the client learns about a job.
#[derive(Debug)]
pub enum PipelineEvent {
    /// The download finished: its payload checked out, or why not.
    Downloaded(Result<(), String>),
    /// The print task finished, timed out or was suppressed.
    Printed(PrintDispatch),
    /// The report was handed to the server (whether or not it arrived).
    Reported,
}

/// What the client does next with a job.
#[derive(Debug)]
pub enum JobAction {
    /// Record it as printing and dispatch its print task.
    Print,
    /// Record it in this state and send this report to the server.
    Report(JobState, JobCompletion),
    /// Remove its spool file.
    RemoveSpool,
    /// Nothing: the event does not belong to this phase.
    Wait,
}

/// The kind of a pipeline event.
#[derive(Debug, Clone, Copy, PartialEq, Eq, Structural)]
pub enum StepKind {
    DownloadOk,
    DownloadFailed,
    Printed,
    Reported,
}

/// The kind of an action.
#[derive(Debug, Clone, Copy, PartialEq, Eq, Structural)]
pub enum ActionKind {
    Print,
    Report,
    RemoveSpool,
    Wait,
}

pub open spec fn event_kind(e: PipelineEvent) -> StepKind {
    match e {
        PipelineEvent::Downloaded(Ok(())) => StepKind::DownloadOk,
        PipelineEvent::Downloaded(Err(_)) => StepKind::DownloadFailed,
        PipelineEvent::Printed(_) => StepKind::Printed,
        PipelineEvent::Reported => StepKind::Reported,
    }
}

pub open spec fn action_kind(a: JobAction) -> ActionKind {
    match a {
        JobAction::Print => ActionKind::Print,
        JobAction::Report(_, _) => ActionKind::Report,
        JobAction::RemoveSpool => ActionKind::RemoveSpool,
        JobAction::Wait => ActionKind::Wait,
    }
}

/// The next phase and the kind of action for an event in a phase: a good
/// download leads to printing, a failed download or a finished print to
/// the report, the report to removing the spool file; any other event
/// leaves the job as it is.
pub open spec fn step_spec(p: JobPhase, k: StepKind) -> (JobPhase, ActionKind) {
    match (p, k) {
        (JobPhase::Downloading, StepKind::DownloadOk) => (JobPhase::Printing, ActionKind::Print),
        (JobPhase::Downloading, StepKind::DownloadFailed) => (JobPhase::Reporting, ActionKind::Report),
        (JobPhase::Printing, StepKind::Printed) => (JobPhase::Reporting, ActionKind::Report),
        (JobPhase::Reporting, StepKind::Reported) => (JobPhase::Done, ActionKind::RemoveSpool),
        _ => (p, ActionKind::Wait),
    }
}

impl Receiver {
    /// One step of a job's way through the client: from its phase and what
    /// was learned, the next phase and what to do. A failed download emits
    /// its `Failed` event and is reported as `download_failed`; a finished
    /// print task is reported with its result (a timeout or a suppressed
    /// duplicate as an error) and the job's final state.
    pub fn job_step(&self, job: &PrintJob, phase: JobPhase, event: PipelineEvent, events: &mut EventEmitter) -> (r: (
        JobPhase,
        JobAction,
    ))
        ensures
            (r.0, action_kind(r.1)) == step_spec(phase, event_kind(event)),
            match (phase, event) {
                (JobPhase::Downloading, PipelineEvent::Downloaded(Err(e))) => {
                    &&& r.1 matches JobAction::Report(s, c) && s == JobState::Failed && download_failed_report(
                        c,
                        job.job_id@,
                        e@,
                        self.machine_id_spec(),
                    )
                    &&& download_failure_recorded(old(events).emitted(), final(events).emitted(), job.job_id@, e@)
                },
                (JobPhase::Printing, PipelineEvent::Printed(d)) => {
                    let res = dispatch_outcome(d, self.timeout_spec());
                    &&& r.1 matches JobAction::Report(s, c) && s == (if res is Ok {
                        JobState::Completed
                    } else {
                        JobState::Failed
                    }) && print_report(
                        c,
                        job.job_id@,
                        job.copies,
                        res,
                        self.backend_spec(),
                        self.machine_id_spec(),
                        old(events).emitted(),
                    )
                    &&& final(events).emitted() == old(events).emitted()
                },
                _ => final(events).emitted() == old(events).emitted(),
            },
    {
        match (phase, event) {
            (JobPhase::Downloading, PipelineEvent::Downloaded(Ok(()))) => (JobPhase::Printing, JobAction::Print),
            (JobPhase::Downloading, PipelineEvent::Downloaded(Err(e))) => {
                let c = self.record_download_failed(events, job.job_id.as_str(), e.as_str());
                (JobPhase::Reporting, JobAction::Report(JobState::Failed, c))
            },
            (JobPhase::Printing, PipelineEvent::Printed(d)) => {
                let res = dispatch_result(d, self.print_timeout_secs);
                let ok = res.is_ok();
                let c = self.completion_for(job, &res, events);
                (JobPhase::Reporting, JobAction::Report(final_state(ok), c))
            },
            (JobPhase::Reporting, PipelineEvent::Reported) => (JobPhase::Done, JobAction::RemoveSpool),
            (p, _) => (p, JobAction::Wait),
        }
    }
}

/// The phase a job reaches, and the kinds of action taken, after a run of
/// events from the start of its download.
pub open spec fn run_job(ks: Seq<StepKind>) -> (JobPhase, Seq<ActionKind>)
    decreases ks.len(),
{
    if ks.len() == 0 {
        (JobPhase::Downloading, Seq::empty())
    } else {
        let (p, acts) = run_job(ks.drop_last());
        let (q, a) = step_spec(p, ks.last());
        (q, acts.push(a))
    }
}

/// How often `k` occurs in `acts`.
pub open spec fn occurrences(acts: Seq<ActionKind>, k: ActionKind) -> nat
    decreases acts.len(),
{
    if acts.len() == 0 {
        0
    } else {
        occurrences(acts.drop_last(), k) + (if acts.last() == k {
            1nat
        } else {
            0nat
        })
    }
}

/// Whatever events arrive, a job is reported to the server at most once,
/// its spool file is removed at most once, and only after the report: until
/// it is reported nothing is removed, and once its spool file is removed it
/// has been reported exactly once. It is printed at most once, and never
/// after a failed download.
pub proof fn law_one_report_per_job(ks: Seq<StepKind>)
    ensures
        ({
            let (p, acts) = run_job(ks);
            &&& occurrences(acts, ActionKind::Report) <= 1
            &&& occurrences(acts, ActionKind::RemoveSpool) <= 1
            &&& occurrences(acts, ActionKind::Print) <= 1
            &&& occurrences(acts, ActionKind::RemoveSpool) <= occurrences(acts, ActionKind::Report)
            &&& (p == JobPhase::Done) == (occurrences(acts, ActionKind::RemoveSpool) == 1)
            &&& (p == JobPhase::Done ==> occurrences(acts, ActionKind::Report) == 1)
            &&& (p == JobPhase::Downloading ==> occurrences(acts, ActionKind::Report) == 0
                && occurrences(acts, ActionKind::Print) == 0)
        }),
    decreases ks.len(),
{
    if ks.len() > 0 {
        law_one_report_per_job(ks.drop_last());
        let (p, acts) = run_job(ks.drop_last());
        lemma_phase_counts(ks.drop_last());
        let (q, a) = step_spec(p, ks.last());
        assert(acts.push(a).drop_last() =~= acts);
    }
}

/// The counts each phase carries.
proof fn lemma_phase_counts(ks: Seq<StepKind>)
    ensures
        ({
            let (p, acts) = run_job(ks);
            let rep = occurrences(acts, ActionKind::Report);
            let rm = occurrences(acts, ActionKind::RemoveSpool);
            let pr = occurrences(acts, ActionKind::Print);
            match p {
                JobPhase::Downloading => rep == 0 && rm == 0 && pr == 0,
                JobPhase::Printing => rep == 0 && rm == 0 && pr == 1,
                JobPhase::Reporting => rep == 1 && rm == 0 && pr <= 1,
                JobPhase::Done => rep == 1 && rm == 1 && pr <= 1,
            }
        }),
    decreases ks.len(),
{
    if ks.len() > 0 {
        lemma_phase_counts(ks.drop_last());
        let (p, acts) = run_job(ks.drop_last());
        let (q, a) = step_spec(p, ks.last());
        assert(acts.push(a).drop_last() =~= acts);
    }
}

} // verus!
