[package]
name = "wrkflw"
version = "0.1.0"
edition = "2021"
publish = false

[dependencies]
serde = { version = "=1.0.229", features = ["derive"] }
serde_yaml = "=0.9.34"
serde_json = "=1.0.154"
shlex = "=1.3.0"
chrono = "=0.4.45"
tokio = { version = "=1.54.1", features = ["rt-multi-thread", "macros", "process", "time", "sync", "fs", "io-util"] }
futures = "=0.3.34"
futures-util = "=0.3.34"
bollard = "=0.18.1"
uuid = { version = "=1.29.0", features = ["v4"] }
tempfile = "=3.27.0"
once_cell = "=1.21.4"
num_cpus = "=1.17.0"
dirs = "=5.0.1"
thiserror = "1"
async-trait = "=0.1.92"
tar = "0.4"
ignore = "0.4"
reqwest = { version = "0.12", default-features = false, features = ["rustls-tls", "json"] }
