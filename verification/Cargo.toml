[package]
name = "memview"
version = "0.1.0"
edition = "2021"
publish = false

[dependencies]
winapi = { version = "0.3", features = ["consoleapi", "wincon", "winbase", "winnt", "ntdef", "minwindef"] }
ntapi = "0.4"
