//! Memory management of the Linux shim.

pub mod elf_headers;
pub mod elf_init;
pub mod elf_patch;
pub mod gates;
pub mod mapping;
pub mod patch_aims;
pub mod patch_cache;
pub mod patch_exec;
pub mod patch_laws;
pub mod protect;
pub mod range_set;
pub mod ranges;
