[package]
name = "rusty_xinput"
version = "1.0.0"
edition = "2021"
publish = false

[dependencies]
winapi = { version = "0.3", features = ["guiddef", "libloaderapi", "minwindef", "ntdef", "winerror", "winnt", "xinput"] }
