[package]
name = "rpi_mh_z19c_exporter"
version = "0.1.0"
edition = "2021"
publish = false

[dependencies]
libsystemd = "*"
mh-z19c = "*"
nb = "1"
prometheus = "0.13"
protobuf = "2"
rppal = { version = "*", features = ["hal"] }
tide = { version = "0.16", default-features = false, features = ["h1-server"] }
tokio = { version = "1", features = ["macros", "rt", "sync", "time"] }
