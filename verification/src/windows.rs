//! The Windows platform on x86-64.

pub mod allocate;
pub mod context;
pub mod interrupt;
pub mod regions;
pub mod sync;
pub mod thread;
pub mod xsave;
