//! Job lifecycle states, the events that announce them, and the metadata
//! kept for each job.
use vstd::prelude::*;

verus! {

/// Where a job stands in the server's state machine.
#[derive(Debug, Clone, Copy, PartialEq, Eq, Structural)]
pub enum JobState {
    Queued,
    Downloading,
    Printing,
    Completed,
    Failed,
    Cancelled,
}

/// Events emitted when a job's state changes, consumed by WebSocket clients.
#[derive(Debug, Clone)]
pub enum JobEvent {
    Created { job_id: String, document_name: String, requesting_user: Option<String>, target_printer: String },
    StateChanged { job_id: String, new_state: JobState, requesting_user: Option<String> },
}

/// What is stored about one print job. Times are seconds since the Unix epoch (UTC).
#[derive(Debug, Clone)]
pub struct JobMetadata {
    pub job_id: String,
    pub document_name: String,
    pub target_printer: String,
    pub target_client_id: Option<String>,
    pub copies: u32,
    pub paper_size: String,
    pub duplex: bool,
    pub color: bool,
    pub payload_size: u64,
    pub payload_sha256: String,
    pub state: JobState,
    pub retry_count: u32,
    pub error_detail: String,
    pub requesting_user: Option<String>,
    pub created_at: i64,
    pub updated_at: i64,
}

} // verus!
