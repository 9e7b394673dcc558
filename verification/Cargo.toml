[package]
name = "uhppote-mqtt"
version = "0.1.0"
edition = "2021"
publish = false

[dependencies]
anyhow = "=1.0.104"
bincode = "=2.0.0-rc.3"
bincode_derive = "=2.0.0-rc.3"
clap = { version = "=4.6.7", features = ["derive"] }
log = "=0.4.34"
reqwest = { version = "=0.11.27", default-features = false, features = ["json"] }
rumqttc = { version = "=0.25.1", default-features = false }
serde = { version = "=1.0.229", features = ["derive"] }
serde_json = "=1.0.154"
tokio = { version = "=1.54.1", features = ["macros", "rt-multi-thread"] }
uhppote-rs = "=0.1.0"
