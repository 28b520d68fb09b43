[package]
name = "wifi_onboard"
version = "0.1.0"
edition = "2021"
publish = false

[dependencies]
esp-idf-hal = "0.44"
esp-idf-svc = "0.49"
esp-idf-sys = "0.35"
heapless = "0.8"
log = "0.4"
