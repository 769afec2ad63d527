[package]
name = "mount_sync"
version = "0.1.0"
edition = "2021"
publish = false

[dependencies]
async-trait = "0.1"
base64 = "0.22"
chrono = { version = "0.4", features = ["serde"] }
dirs = "5"
filetime = "0.2"
glob = "0.3"
libc = "0.2"
notify = "6"
serde = { version = "1", features = ["derive"] }
serde_json = "1"
sha2 = "0.10"
sysinfo = "0.30"
thiserror = "1"
tokio = { version = "1", features = ["full"] }
toml = "0.8"
tracing = "0.1"
unicode-normalization = "0.1"
uuid = { version = "1", features = ["v4", "serde"] }
which = "6"
xattr = "1"
