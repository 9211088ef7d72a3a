[package]
name = "evergreen"
version = "0.1.0"
edition = "2021"
publish = false

[dependencies]
axum = "0.6"
axum-client-ip = "0.4"
chrono = { version = "0.4", features = ["serde"] }
embedded-svc = "0.25"
enumset = "1"
esp-idf-hal = "0.41"
esp-idf-svc = "0.46"
esp-idf-sys = "0.33"
log = "0.4"
serde = { version = "1", features = ["derive"] }
serde_json = "1"
thiserror = "1"
tokio = { version = "1", features = ["full"] }
toml_edit = { version = "0.19", features = ["serde"] }
tracing-subscriber = "0.3"
