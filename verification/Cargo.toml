[package]
name = "litebox"
version = "0.1.0"
edition = "2021"
publish = false

[dependencies]
aligned-vec = "*"
anyhow = "*"
clap = { version = "*", features = ["derive"] }
fs-err = "*"
getrandom = "*"
libc = "*"
object = "*"
raw-cpuid = "*"
thiserror = "*"
tracing-subscriber = { version = "*", features = ["env-filter"] }
windows-sys = { version = "*", features = ["Win32_Foundation", "Win32_Security", "Win32_System_Console", "Win32_System_Diagnostics_Debug", "Win32_System_Kernel", "Win32_System_LibraryLoader", "Win32_System_Memory", "Win32_System_ProcessStatus", "Win32_System_SystemInformation", "Win32_System_Threading", "Win32_System_WindowsProgramming"] }
x86_64 = { version = "*", default-features = false }
zerocopy = { version = "*", features = ["alloc"] }
