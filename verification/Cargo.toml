[package]
name = "rmk_hid"
version = "0.1.0"
edition = "2021"
publish = false

[dependencies]
embassy-futures = "*"
embassy-sync = "*"
embassy-time = "*"
embassy-usb = "*"
embassy-usb-logger = "*"
embedded-io-async = "*"
heapless = "0.9"
log = "0.4"
serde = { version = "1", default-features = false, features = ["derive"] }
static_cell = "2"
usbd-hid = "*"
