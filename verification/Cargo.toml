[package]
name = "espbox_kiosk"
version = "0.1.0"
edition = "2021"
publish = false

[dependencies]
bme680 = "0.6"
critical-section = "1.1"
display-interface = "0.4"
display-interface-spi = "0.4"
embassy-executor = "0.5"
embassy-net = "0.4"
embassy-time = "0.3"
embedded-graphics = "0.8"
embedded-svc = "0.26"
esp-backtrace = "0.11"
esp-println = "0.10"
esp-wifi = "0.3"
esp32s3-hal = "0.15"
heapless = "0.8"
mipidsi = "0.7"
nb = "1.1"
rust-mqtt = "0.3"
static_cell = "2.0"
