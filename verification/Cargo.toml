[package]
name = "mcproc"
version = "0.1.0"
edition = "2021"
publish = false

[dependencies]
chrono = "0.4"
strip-ansi-escapes = "0.2"
clap = { version = "4", features = ["derive"] }
colored = "2"
serde = { version = "1", features = ["derive"] }
serde_json = "1"
tokio = { version = "1", features = ["full"] }
async-trait = "0.1"
thiserror = "1"
nix = { version = "0.29", features = ["signal", "process"] }
dirs = "5"
libc = "0.2"
toml = "0.8"
sysinfo = "0.33"
tabled = "0.16"
tracing = "0.1"
tracing-subscriber = { version = "0.3", features = ["env-filter"] }
uuid = { version = "1", features = ["v4"] }
prost-types = "0.13"
tokio-stream = "0.1"
futures-util = "0.3"
