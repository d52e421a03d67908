[package]
name = "esp-xbox-controller"
version = "0.3.0"
edition = "2021"
publish = false

[dependencies]
trouble-host = { version = "=0.8.0", features = ["security", "legacy-pairing", "scan"] }
bt-hci = "=0.10.1"
embassy-futures = "=0.1.2"
embassy-sync = "=0.8.0"
embassy-time = "=0.5.1"
heapless = "=0.9.3"
esp-println = { version = "0.18", features = ["esp32c3"] }
anyhow = "=1.0.104"
tokio = { version = "=1.54.1", features = ["rt-multi-thread", "sync", "time", "macros"] }
futures = "=0.3.34"
uuid = "=1.29.0"
evdev = "=0.13.2"
btleplug = "=0.13.5"
bluer = { version = "=0.17.4", default-features = false, features = ["bluetoothd"] }
eframe = { version = "=0.37.0", default-features = false, features = ["glow", "x11", "default_fonts"] }
