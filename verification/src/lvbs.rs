//! The kernel platform of a secure world under a hypervisor.

pub mod asm_variables;
pub mod per_cpu;
pub mod xsave;
