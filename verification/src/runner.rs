//! Running a Linux program: what the command line asks for, and what the
//! program finds when it starts.

pub mod command;
pub mod files;
pub mod launch;
