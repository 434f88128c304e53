[package]
name = "waveplus_gateway"
version = "0.1.0"
edition = "2021"
publish = false

[dependencies]
anyhow = "1"
log = "0.4"
embedded-svc = "*"
esp-idf-svc = "*"
esp32-nimble = "*"
toml-cfg = "*"
