[package]
name = "ak-platform"
version = "0.1.0"
edition = "2021"
publish = false

[dependencies]
base64 = "=0.22.1"
sha2 = "=0.10.9"
p256 = { version = "=0.13.2", features = ["pem", "jwk", "ecdsa", "pkcs8"] }
url = "=2.5.8"
tokio = { version = "=1.54.1", features = ["full"] }
tonic = "=0.13.1"
prost = "=0.13.5"
tower = { version = "=0.5.3", features = ["util"] }
http = "=1.5.0"
http-body-util = "=0.1.5"
bytes = "=1.12.1"
hyper-util = { version = "=0.1.21", features = ["tokio"] }
interprocess = { version = "=2.4.7", features = ["tokio"] }
ssh-agent-lib = "=0.5.2"
serde = { version = "=1.0.229", features = ["derive"] }
serde_json = { version = "=1.0.154", features = ["preserve_order"] }
tracing = "=0.1.44"
log = "=0.4.35"
env_filter = "=0.1.4"
simplelog = "=0.12.2"
syslog = "=7.0.0"
dirs-next = "=2.0.0"
jsonwebtoken = "=9.3.1"
uuid = { version = "=1.29.0", features = ["v4"] }
chrono = "=0.4.45"
reqwest = { version = "=0.12.28", default-features = false, features = ["json"] }
sysinfo = "=0.35.2"
libc = "=0.2.191"
secret-service = { version = "=4.0.0", features = ["rt-tokio-crypto-rust"] }
zbus = "=4.4.0"
