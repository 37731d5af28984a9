[package]
name = "rustyfarian_mqtt"
version = "0.1.0"
edition = "2021"
publish = false

[dependencies]
anyhow = "1"
esp-idf-svc = "*"
log = "0.4"
rgb = "0.8"
