[package]
name = "client_audit_logs"
version = "0.1.0"
edition = "2021"
publish = false

[dependencies]
async-trait = "=0.1.92"
moka = { version = "=0.12.16", features = ["future"] }
serde = { version = "=1.0.229", features = ["derive"] }
serde_json = "=1.0.154"
tokio = { version = "=1.54.1", features = ["full"] }
tonic = "=0.14.9"
prost = "=0.14.4"
uuid = { version = "=1.29.0", features = ["v4"] }
