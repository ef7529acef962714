[package]
name = "satellite_ocs"
version = "0.1.0"
edition = "2021"
publish = false

[dependencies]
serde = { version = "1", features = ["derive"] }
serde_json = "1"
tokio = { version = "1", features = ["io-util", "macros", "net", "rt-multi-thread", "sync", "time"] }
winapi = { version = "0.3", features = ["consoleapi", "processenv", "processthreadsapi", "timeapi", "winbase"] }
