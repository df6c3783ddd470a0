//! The configuration file's sections. Reading and parsing the TOML file is
//! done by the application; these are the values it yields.
use vstd::prelude::*;

verus! {

#[derive(Debug, Clone)]
pub struct Config {
    pub general: GeneralConfig,
    pub server: ServerConfig,
    pub client: ClientConfig,
    pub jobs: JobsConfig,
}

#[derive(Debug, Clone)]
pub struct GeneralConfig {
    pub mode: String,
    pub log_level: String,
    pub data_dir: String,
}

#[derive(Debug, Clone)]
pub struct ServerConfig {
    pub ipp_port: u16,
    pub grpc_port: u16,
    pub dashboard_port: u16,
    pub printer_name: String,
    pub spool_dir: String,
    pub tls: TlsConfig,
}

#[derive(Debug, Clone)]
pub struct ClientConfig {
    pub server_address: String,
    pub target_printer: String,
    pub dashboard_port: u16,
    pub reconnect_interval_secs: u64,
    pub max_reconnect_interval_secs: u64,
    /// Explicit client id; when absent it is derived from the host name.
    pub client_id: Option<String>,
    /// `windows_spooler` (also when empty), `windows_spooler_raw`,
    /// `direct_ipp`, `direct_raw`, `print_proxy` or `cups`.
    pub print_backend: String,
    pub printer_address: Option<String>,
    pub ghostscript_device: String,
    pub ghostscript_resolution: u32,
    pub printer_tls: bool,
    pub printer_display_name: Option<String>,
    pub print_proxy_url: Option<String>,
    pub virtual_printer_name: Option<String>,
    pub tls: TlsConfig,
    pub serial_bridge: SerialBridgeClientConfig,
}

#[derive(Debug, Clone)]
pub struct TlsConfig {
    pub cert_file: String,
    pub key_file: String,
    pub ca_file: String,
}

impl Default for TlsConfig {
    fn default() -> (r: Self)
        ensures
            r.cert_file@ == Seq::<char>::empty(),
            r.key_file@ == Seq::<char>::empty(),
            r.ca_file@ == Seq::<char>::empty(),
    {
        TlsConfig { cert_file: String::new(), key_file: String::new(), ca_file: String::new() }
    }
}

/// The `[client.serial_bridge]` block: forward barcodes read from a local
/// serial port to the server.
#[derive(Debug, Clone)]
pub struct SerialBridgeClientConfig {
    pub enabled: bool,
    pub port: String,
    pub baud_rate: u32,
}

impl Default for SerialBridgeClientConfig {
    fn default() -> (r: Self)
        ensures
            !r.enabled,
            r.port@ == Seq::<char>::empty(),
            r.baud_rate == 0,
    {
        SerialBridgeClientConfig { enabled: false, port: String::new(), baud_rate: 0 }
    }
}

#[derive(Debug, Clone)]
pub struct JobsConfig {
    pub max_retries: u32,
    pub retry_delay_secs: u64,
    pub job_expiry_hours: u64,
    pub max_payload_size_mb: u64,
    /// Per-job hard timeout of the client's print task, in seconds.
    pub print_timeout_secs: u64,
}

/// The default `[jobs] print_timeout_secs`: 30 minutes, enough for
/// multi-page label sheets on slow consumer printers.
pub fn default_print_timeout_secs() -> (r: u64)
    ensures
        r == 1800,
{
    1800
}

} // verus!
