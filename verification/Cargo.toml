[package]
name = "esp_wroom_32_slave"
version = "0.1.0"
edition = "2021"
publish = false

[dependencies]
anyhow = "1"
embedded-svc = "0.28"
esp-idf-hal = "0.45"
esp-idf-svc = { version = "0.51", features = ["alloc", "critical-section", "experimental"] }
esp-idf-sys = "0.36"
log = "0.4"
rmp-serde = "1"
serde = { version = "1", features = ["derive"] }
serde_json = "1"
