use vstd::prelude::*;

pub mod backend;
pub mod config;
pub mod cups;
pub mod dashboard;
pub mod direct_ipp;
pub mod direct_raw;
pub mod e2e;
pub mod error;
pub mod ghostscript;
pub mod inflight;
pub mod ipc;
pub mod ipp;
pub mod job;
pub mod job_event;
pub mod pairing;
pub mod print_proxy;
pub mod printer;
pub mod receiver;
pub mod serial_bridge;
pub mod sizes;
pub mod spooler_raw;
pub mod startup_validation;
pub mod text;
pub mod tracker;
pub mod virtual_printer;
pub mod windows_spooler;
pub mod tray;

verus! {
} // verus!
