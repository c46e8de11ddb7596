[package]
name = "cloudflare_dns_operator"
version = "0.1.0"
edition = "2021"
publish = false

[dependencies]
base64 = "=0.22.1"
chrono = "=0.4.45"
serde = { version = "=1.0.229", features = ["derive"] }
serde_json = "=1.0.151"
serde_yaml = "=0.9.34"
tokio = { version = "=1.53.2", features = ["full"] }
futures = "=0.3.34"
async-stream = "=0.3.6"
reqwest = { version = "=0.12.28", default-features = false, features = ["json", "rustls-tls"] }
kube = { version = "=3.1.0", features = ["client", "runtime", "derive", "unstable-runtime"] }
k8s-openapi = { version = "=0.27.1", features = ["latest", "schemars"] }
schemars = "=1.2.2"
rsdns = { version = "=0.23.0", features = ["net-tokio"] }
clap = { version = "=4.6.7", features = ["derive", "env"] }
humantime = "=2.4.0"
thiserror = "=2.0.21"
eyre = "=0.6.14"
tracing = "=0.1.44"
tracing-subscriber = "=0.3.23"
