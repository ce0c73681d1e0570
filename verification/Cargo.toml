[package]
name = "goldsrc_overlay"
version = "0.1.0"
edition = "2021"
publish = false

[dependencies]
minhook-sys = "*"
once_cell = "1"
winapi = { version = "0.3", features = ["handleapi", "libloaderapi", "memoryapi", "minwindef", "processthreadsapi", "psapi", "windef", "winnt", "winuser"] }
