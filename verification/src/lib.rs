//! The decision logic of a library OS: memory management, syscall dispatch,
//! exception routing and per-CPU layout, stated over plain values and proved.

pub mod arith;
pub mod errno;
pub mod flags;
pub mod headers;
pub mod lvbs;
pub mod macos;
pub mod mm;
pub mod page_mgmt;
pub mod platform;
pub mod runner;
pub mod shim;
pub mod text;
pub mod windows;
