[package]
name = "sleep-block"
version = "0.1.0"
edition = "2021"
publish = false

[dependencies]
zbus = { version = "=5.19.0", default-features = false, features = ["async-io", "blocking-api"] }
ksni = { version = "=0.3.7", default-features = false, features = ["blocking", "async-io"] }
png = "=0.18.1"
event-listener = "=5.4.2"
eframe = { version = "=0.37.0", default-features = false, features = ["default_fonts", "glow", "wayland", "x11"] }
