[package]
name = "ffi_patterns"
version = "0.1.0"
edition = "2021"
publish = false

[dependencies]
safer-ffi = { version = "=0.0.10", features = ["proc_macros", "headers", "out-refs"] }
