[package]
name = "battery_applet"
version = "0.1.0"
edition = "2021"
publish = false

[dependencies]
futures = "=0.3.34"
gtk4 = "=0.11.5"
relm4 = "=0.11.0"
zbus = { version = "=6.1.0", features = ["p2p"] }
