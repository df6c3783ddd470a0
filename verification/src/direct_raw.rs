//! Direct RAW backend: Ghostscript renders the PDF to raster, streamed to
//! the printer over TCP port 9100 (JetDirect). The protocol has no copies
//! attribute and no acknowledgement: N copies are the payload sent N times.
use vstd::prelude::*;

use crate::job_event::{event_is, EventEmitter, PrintStage};
use crate::text::push_str;

verus! {

#[derive(Debug)]
pub struct DirectRaw {
    address: String,
    gs_device: String,
    gs_resolution: u32,
}

impl DirectRaw {
    pub closed spec fn address_spec(&self) -> Seq<char> {
        self.address@
    }

    pub closed spec fn device_spec(&self) -> Seq<char> {
        self.gs_device@
    }

    pub closed spec fn resolution_spec(&self) -> u32 {
        self.gs_resolution
    }

    pub fn new(address: String, gs_device: String, gs_resolution: u32) -> (r: Self)
        ensures
            r.address_spec() == address@,
            r.device_spec() == gs_device@,
            r.resolution_spec() == gs_resolution,
    {
        DirectRaw { address, gs_device, gs_resolution }
    }

    pub fn name(&self) -> (r: &'static str)
        ensures
            r@ == "direct_raw"@,
    {
        "direct_raw"
    }

    /// The printer's `host:port`.
    pub fn address(&self) -> (r: &str)
        ensures
            r@ == self.address_spec(),
    {
        self.address.as_str()
    }

    /// The Ghostscript output device.
    pub fn gs_device(&self) -> (r: &str)
        ensures
            r@ == self.device_spec(),
    {
        self.gs_device.as_str()
    }

    /// The rendering resolution in dots per inch.
    pub fn gs_resolution(&self) -> (r: u32)
        ensures
            r == self.resolution_spec(),
    {
        self.gs_resolution
    }

    /// How many times the payload is sent for a job of `copies` copies: at least once.
    pub fn copies_to_send(&self, copies: u32) -> (r: u32)
        ensures
            r == (if copies == 0 { 1 } else { copies }),
    {
        if copies == 0 {
            1
        } else {
            copies
        }
    }
}

/// Emits the `Completed` event of a RAW job: the socket closed cleanly,
/// which is all RAW can tell.
pub fn record_delivered(events: &mut EventEmitter, job_id: &str, display: &str)
    ensures
        final(events).emitted().len() == old(events).emitted().len() + 1,
        final(events).emitted().drop_last() == old(events).emitted(),
        event_is(
            final(events).emitted().last(),
            job_id@,
            PrintStage::Completed,
            true,
            display@ + " — delivered (no ACK via RAW)"@,
            Seq::<char>::empty(),
            Seq::<char>::empty(),
        ),
{
    let mut d = String::new();
    push_str(&mut d, display);
    push_str(&mut d, " — delivered (no ACK via RAW)");
    events.emit_ok(job_id, PrintStage::Completed, d.as_str());
}

} // verus!
