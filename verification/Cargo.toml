[package]
name = "mono_rt"
version = "0.1.0"
edition = "2021"
publish = false

[dependencies]
thiserror = "2"
tracing = "0.1"
windows = { version = "0.58", features = ["Win32_Foundation", "Win32_System_LibraryLoader"] }
