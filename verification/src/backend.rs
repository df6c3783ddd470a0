//! Print backends: the job descriptor they receive and the choice of backend
//! from the client's configuration.
use vstd::prelude::*;

verus! {

/// A print job descriptor passed to backends.
#[derive(Debug, Clone)]
pub struct PrintJobInfo {
    pub job_id: String,
    pub document_name: String,
    pub copies: u32,
    pub duplex: bool,
    pub color: bool,
    pub printer_name: String,
    pub printer_display_name: Option<String>,
}

/// The name shown for `printer`: the job's display name when it has one.
pub open spec fn display_for(job: PrintJobInfo, printer: Seq<char>) -> Seq<char> {
    match job.printer_display_name {
        Some(d) => d@,
        None => printer,
    }
}

impl PrintJobInfo {
    /// The name to show for `printer` in events: the job's display name, or
    /// `printer` itself.
    pub fn display_name(&self, printer: &str) -> (r: String)
        ensures
            r@ == display_for(*self, printer@),
    {
        match &self.printer_display_name {
            Some(d) => d.clone(),
            None => printer.to_owned(),
        }
    }
}

} // verus!

verus! {

/// Records the verdict of a delivery check. On success: a `Verified` event
/// (`method`, `evidence`) and a `Completed` event (`completed`). On
/// failure: a `Failed` event whose detail and evidence are `failure`, also
/// returned as the error.
pub fn record_check(
    events: &mut crate::job_event::EventEmitter,
    job_id: &str,
    success: bool,
    method: &str,
    evidence: &str,
    completed: &str,
    failure: &str,
) -> (r: Result<(), String>)
    ensures
        ({
            let n = old(events).emitted().len();
            if success {
                &&& r is Ok
                &&& final(events).emitted().len() == n + 2
                &&& final(events).emitted().take(n as int) == old(events).emitted()
                &&& crate::job_event::event_is(
                    final(events).emitted()[n as int],
                    job_id@,
                    crate::job_event::PrintStage::Verified,
                    true,
                    evidence@,
                    method@,
                    evidence@,
                )
                &&& crate::job_event::event_is(
                    final(events).emitted()[n + 1 as int],
                    job_id@,
                    crate::job_event::PrintStage::Completed,
                    true,
                    completed@,
                    Seq::<char>::empty(),
                    Seq::<char>::empty(),
                )
            } else {
                &&& r matches Err(e) && e@ == failure@
                &&& final(events).emitted().len() == n + 1
                &&& final(events).emitted().drop_last() == old(events).emitted()
                &&& crate::job_event::event_is(
                    final(events).emitted().last(),
                    job_id@,
                    crate::job_event::PrintStage::Failed,
                    false,
                    failure@,
                    method@,
                    failure@,
                )
            }
        }),
{
    if success {
        let ghost n = events.emitted().len();
        events.emit_verified(job_id, method, evidence);
        events.emit_ok(job_id, crate::job_event::PrintStage::Completed, completed);
        assert(events.emitted().take(n as int) =~= old(events).emitted());
        assert(events.emitted()[n as int] == events.emitted().drop_last().last());
        Ok(())
    } else {
        events.emit_unverified(job_id, failure, method, failure);
        Err(failure.to_owned())
    }
}

} // verus!

verus! {

/// A print backend, as the client's configuration selects it.
#[derive(Debug)]
pub enum Backend {
    WindowsSpooler(crate::windows_spooler::WindowsSpooler),
    WindowsSpoolerRaw(crate::spooler_raw::WindowsSpoolerRaw),
    DirectIpp(crate::direct_ipp::DirectIpp),
    DirectRaw(crate::direct_raw::DirectRaw),
    PrintProxy(crate::print_proxy::PrintProxyBackend),
    Cups(crate::cups::CupsBackend),
}

/// The name each backend reports.
pub open spec fn backend_name(b: Backend) -> Seq<char> {
    match b {
        Backend::WindowsSpooler(_) => "windows_spooler"@,
        Backend::WindowsSpoolerRaw(_) => "windows_spooler_raw"@,
        Backend::DirectIpp(_) => "direct_ipp"@,
        Backend::DirectRaw(_) => "direct_raw"@,
        Backend::PrintProxy(_) => "print_proxy"@,
        Backend::Cups(_) => "cups"@,
    }
}

impl Backend {
    /// The backend's name, as the `print_backend` setting spells it.
    pub fn name(&self) -> (r: &'static str)
        ensures
            r@ == backend_name(*self),
    {
        match self {
            Backend::WindowsSpooler(b) => b.name(),
            Backend::WindowsSpoolerRaw(b) => b.name(),
            Backend::DirectIpp(b) => b.name(),
            Backend::DirectRaw(b) => b.name(),
            Backend::PrintProxy(b) => b.name(),
            Backend::Cups(b) => b.name(),
        }
    }
}

/// The backend `create_backend` builds from these settings, or its error.
pub open spec fn backend_outcome(
    backend_type: Seq<char>,
    printer_address: Option<Seq<char>>,
    ghostscript_device: Seq<char>,
    ghostscript_resolution: u32,
    target_printer: Seq<char>,
    printer_tls: bool,
    print_proxy_url: Option<Seq<char>>,
    r: Result<Backend, String>,
) -> bool {
    if backend_type == "direct_ipp"@ {
        match printer_address {
            Some(a) => r matches Ok(Backend::DirectIpp(b)) && b.address_spec() == a && b.device_spec()
                == ghostscript_device && b.resolution_spec() == ghostscript_resolution && b.tls_spec()
                == printer_tls,
            None => r matches Err(e) && e@ == "direct_ipp requires printer_address"@,
        }
    } else if backend_type == "direct_raw"@ {
        match printer_address {
            Some(a) => r matches Ok(Backend::DirectRaw(b)) && b.address_spec() == a && b.device_spec()
                == ghostscript_device && b.resolution_spec() == ghostscript_resolution,
            None => r matches Err(e) && e@ == "direct_raw requires printer_address"@,
        }
    } else if backend_type == "print_proxy"@ {
        match print_proxy_url {
            Some(u) => r matches Ok(Backend::PrintProxy(b)) && b.url() == u,
            None => r matches Err(e) && e@ == "print_proxy requires print_proxy_url"@,
        }
    } else if backend_type == "cups"@ {
        r matches Ok(Backend::Cups(b)) && b.target() == target_printer
    } else if backend_type == "windows_spooler_raw"@ {
        r matches Ok(Backend::WindowsSpoolerRaw(b)) && b.target() == target_printer
    } else if backend_type == "windows_spooler"@ || backend_type.len() == 0 {
        r matches Ok(Backend::WindowsSpooler(b)) && b.target() == target_printer
    } else {
        r matches Err(e) && e@ == "unknown print_backend: "@ + backend_type
    }
}

pub open spec fn opt_view(o: Option<&str>) -> Option<Seq<char>> {
    match o {
        Some(s) => Some(s@),
        None => None,
    }
}

/// Create the backend the configuration asks for. `direct_ipp` and
/// `direct_raw` need a printer address, `print_proxy` a proxy URL;
/// `windows_spooler` is also the backend when none is named.
pub fn create_backend(
    backend_type: &str,
    printer_address: Option<&str>,
    ghostscript_device: &str,
    ghostscript_resolution: u32,
    target_printer: &str,
    printer_tls: bool,
    print_proxy_url: Option<&str>,
) -> (r: Result<Backend, String>)
    ensures
        backend_outcome(
            backend_type@,
            opt_view(printer_address),
            ghostscript_device@,
            ghostscript_resolution,
            target_printer@,
            printer_tls,
            opt_view(print_proxy_url),
            r,
        ),
{
    let t = crate::text::chars_of(backend_type);
    let t = t.as_slice();
    if crate::text::eq_str(t, "direct_ipp") {
        match printer_address {
            Some(a) => Ok(
                Backend::DirectIpp(
                    crate::direct_ipp::DirectIpp::new(
                        a.to_owned(),
                        ghostscript_device.to_owned(),
                        ghostscript_resolution,
                        printer_tls,
                    ),
                ),
            ),
            None => Err("direct_ipp requires printer_address".to_owned()),
        }
    } else if crate::text::eq_str(t, "direct_raw") {
        match printer_address {
            Some(a) => Ok(
                Backend::DirectRaw(
                    crate::direct_raw::DirectRaw::new(
                        a.to_owned(),
                        ghostscript_device.to_owned(),
                        ghostscript_resolution,
                    ),
                ),
            ),
            None => Err("direct_raw requires printer_address".to_owned()),
        }
    } else if crate::text::eq_str(t, "print_proxy") {
        match print_proxy_url {
            Some(u) => Ok(Backend::PrintProxy(crate::print_proxy::PrintProxyBackend::new(u.to_owned()))),
            None => Err("print_proxy requires print_proxy_url".to_owned()),
        }
    } else if crate::text::eq_str(t, "cups") {
        Ok(Backend::Cups(crate::cups::CupsBackend::new(target_printer.to_owned())))
    } else if crate::text::eq_str(t, "windows_spooler_raw") {
        Ok(Backend::WindowsSpoolerRaw(crate::spooler_raw::WindowsSpoolerRaw::new(target_printer.to_owned())))
    } else if crate::text::eq_str(t, "windows_spooler") || t.len() == 0 {
        Ok(Backend::WindowsSpooler(crate::windows_spooler::WindowsSpooler::new(target_printer.to_owned())))
    } else {
        let mut e = String::new();
        crate::text::push_str(&mut e, "unknown print_backend: ");
        crate::text::push_str(&mut e, backend_type);
        Err(e)
    }
}

} // verus!
