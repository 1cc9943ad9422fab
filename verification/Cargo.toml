[package]
name = "host_snapshot"
version = "0.1.0"
edition = "2021"
publish = false

[dependencies]
battery = "0.7"
reqwest = { version = "0.12", features = ["json"] }
serde = { version = "1", features = ["derive"] }
sysinfo = "0.33"
