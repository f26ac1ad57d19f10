[package]
name = "magicer"
version = "0.1.0"
edition = "2021"
publish = false

[dependencies]
subtle = "2"
uuid = { version = "1", features = ["v4"] }
chrono = "0.4"
rand = "0.8"
base64 = "0.22"
tokio = { version = "1", features = ["full"] }
axum = "0.8"
tower = { version = "0.5", features = ["limit"] }
tower-http = { version = "0.6", features = ["timeout"] }
serde = { version = "1", features = ["derive"] }
toml = "0.8"
tracing = "0.1"
tracing-subscriber = "0.3"
clap = { version = "4", features = ["derive"] }
bytes = "1"
futures-util = "0.3"
libc = "0.2"
rlimit = "0.10"
socket2 = "0.5"
async-trait = "0.1"

[dev-dependencies]
tempfile = "3"
