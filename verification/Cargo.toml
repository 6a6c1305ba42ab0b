[package]
name = "hearth_shared"
version = "0.1.0"
edition = "2021"
publish = false

[dependencies]
anyhow = "1"
log = "0.4"
esp-idf-svc = "0.52"
esp32-nimble = "0.12"
smart-leds = "*"
ws2812-esp32-rmt-driver = "*"
