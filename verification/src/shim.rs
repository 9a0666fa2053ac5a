//! The Linux shim: syscalls, exceptions and processes.

pub mod chunked;
pub mod dispatch;
pub mod dispatch_laws;
pub mod entry;
pub mod process;
pub mod request_laws;
pub mod requests;
