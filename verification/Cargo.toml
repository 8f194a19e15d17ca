[package]
name = "rmk"
version = "0.1.0"
edition = "2021"
publish = false

[dependencies]
heapless = { version = "=0.9.3", features = ["serde"] }
embassy-time = { version = "=0.5.1", features = ["std"] }
embassy-futures = "=0.1.2"
embassy-sync = "=0.8.0"
embassy-usb = "=0.6.0"
embassy-rp = { version = "=0.10.0", features = ["rp2040"] }
embassy-hal-internal = "=0.5.0"
usbd-hid = "=0.10.2"
embedded-io-async = "=0.7.0"
embedded-storage-async = "=0.4.2"
futures = { version = "=0.3.34", default-features = false, features = ["async-await"] }
smart-leds = "=0.4.0"
static_cell = "=2.1.1"
postcard = { version = "=1.1.3", features = ["experimental-derive"] }
serde = { version = "=1.0.229", default-features = false, features = ["derive"] }
proc-macro2 = "=1.0.107"
quote = "=1.0.47"
syn = { version = "=2.0.119", features = ["full"] }
trouble-host = "=0.8.0"
bt-hci = "=0.10.1"
