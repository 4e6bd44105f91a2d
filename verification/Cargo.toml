[package]
name = "vehicle_dashboard"
version = "0.1.0"
edition = "2021"
publish = false

[dependencies]
prost = { version = "0.13", default-features = false, features = ["std"] }
tokio = { version = "1", features = ["rt-multi-thread", "macros", "sync", "time"] }
zenoh = { version = "1", default-features = false, features = ["transport_tcp", "transport_udp"] }
rppal = "*"
chrono = { version = "0.4", default-features = false, features = ["clock"] }
clap = { version = "4", features = ["derive"] }
env_logger = { version = "0.11", default-features = false }
log = "0.4"
