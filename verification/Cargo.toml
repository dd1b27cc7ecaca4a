[package]
name = "rusty_a2a"
version = "0.1.0"
edition = "2021"
publish = false

[dependencies]
serde = { version = "1", features = ["derive"] }
serde_json = "1"
chrono = { version = "0.4", default-features = false, features = ["std", "serde"] }
reqwest = { version = "0.12", default-features = false, features = ["json", "stream"] }
tonic = { version = "*", default-features = false }
prost-types = "*"
thiserror = "*"
futures-core = "0.3"
futures-util = "0.3"
eventsource-stream = "0.2"
