[package]
name = "opentartarus"
version = "0.1.0"
edition = "2021"
publish = false

[dependencies]
serde = { version = "=1.0.229", features = ["derive"] }
serde_json = "=1.0.154"
tokio = { version = "=1.54.1", features = ["full"] }
evdev = "=0.13.2"
ksni = "=0.3.7"
zbus = "=5.19.0"
png = "=0.18.1"
directories = "=6.0.0"
uuid = { version = "=1.29.0", features = ["v4"] }
