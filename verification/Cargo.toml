[package]
name = "talia"
version = "0.1.2"
edition = "2021"
publish = false

[dependencies]
anyhow = "1"
axum = { version = "0.8", features = ["ws"] }
aya = "0.13"
clap = { version = "4", features = ["derive", "env"] }
futures-util = "0.3"
humantime = "2"
opentelemetry = { version = "0.30", features = ["metrics"] }
opentelemetry-otlp = { version = "0.30", default-features = false, features = ["grpc-tonic", "metrics"] }
opentelemetry_sdk = { version = "0.30", features = ["metrics"] }
reqwest = { version = "0.12", default-features = false, features = ["json", "rustls-tls"] }
rustix = { version = "1", features = ["fs", "param", "system"] }
rustls = { version = "0.23", default-features = false, features = ["ring", "std", "tls12"] }
serde = { version = "1", features = ["derive"] }
serde_json = "1"
sha2 = "0.10"
subtle = "2"
thiserror = "2"
tokio = { version = "1", features = ["macros", "net", "rt-multi-thread", "signal", "sync", "time"] }
tokio-tungstenite = { version = "0.27", features = ["rustls-tls-webpki-roots"] }
toml = "0.8"
tracing = "0.1"
tracing-subscriber = { version = "0.3", features = ["env-filter"] }
utoipa = "5"
uuid = { version = "1", features = ["v4"] }
