[package]
name = "rlbot_gui"
version = "0.1.0"
edition = "2021"
publish = false

[dependencies]
configparser = "3"
glob = "0.3"
lazy_static = "1.4"
native-dialog = "0.6"
rayon = "1"
registry = "1.2"
reqwest = "0.11"
serde = { version = "1", features = ["derive"] }
serde_json = "1"
sysinfo = "0.29"
