[package]
name = "win_proc_enum"
version = "0.1.0"
edition = "2021"
publish = false

[dependencies]
winapi = { version = "0.3", features = ["handleapi", "minwindef", "ntdef", "processthreadsapi", "psapi", "winnt"] }
