//! Messages between the tray app and the background service.
use vstd::prelude::*;

verus! {

/// A request from the tray app to the service.
#[derive(Debug, Clone, Copy, PartialEq, Eq, Structural)]
pub enum IpcRequest {
    GetStatus,
    StartService,
    StopService,
    OpenDashboard,
}

/// The service's answer to an [`IpcRequest`].
#[derive(Debug, Clone)]
pub enum IpcResponse {
    Status { running: bool, mode: String, jobs_queued: u32, connected_clients: u32 },
    /// The request was carried out.
    Success,
    Error { message: String },
}

} // verus!
