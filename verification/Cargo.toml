[package]
name = "etw_helpers"
version = "0.1.0"
edition = "2021"
publish = false

[dependencies]
crossbeam-channel = "=0.5.17"
futures = { version = "=0.3.34", features = ["executor"] }
rsevents = "=0.3.1"
windows = { version = "=0.48.0", features = ["Win32_Foundation", "Win32_Security", "Win32_System_Diagnostics_Etw", "Win32_System_Time"] }

[dev-dependencies]
crossbeam-utils = "=0.8.23"
