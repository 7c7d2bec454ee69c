[package]
name = "esp32-experiments"
version = "0.1.0"
edition = "2021"
publish = false

[dependencies]
chrono = { version = "0.4", default-features = false, features = ["std"] }
log = "0.4"
esp-idf-svc = "0.49"
embedded-graphics = "0.8"
ssd1306 = "0.8"
sx127x_lora = "0.3"
esp-hal = "0.19"
esp-hal-embassy = "0.2"
esp-backtrace = "0.13"
esp-println = "0.10"
embassy-executor = "0.5"
embassy-time = "0.3"
embedded-hal-async = "1"
embedded-hal-bus = { version = "0.2", features = ["async"] }
lora-phy = "3"
lorawan-device = "0.12"
