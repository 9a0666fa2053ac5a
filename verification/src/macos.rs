//! The macOS platform on AArch64.

pub mod allocate;
pub mod context;
pub mod install;
pub mod memory;
pub mod pages;
pub mod remap;
pub mod signals;
pub mod sync;
pub mod thread;
pub mod tls;
