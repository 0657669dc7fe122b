[package]
name = "rover"
version = "0.1.0"
edition = "2021"
publish = false

[dependencies]
anyhow = "1"
embedded-hal = "=1.0.0-alpha.10"
embedded-svc = "0.25"
esp-idf-hal = "0.41"
esp-idf-svc = "0.46"
esp-idf-sys = "0.33"
log = "0.4"
pid = "3"
serde = { version = "1", features = ["derive"] }
serde_json = "1"
shared-bus = "0.2"
url = "2"
