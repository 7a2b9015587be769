[package]
name = "tranquility"
version = "0.1.0"
edition = "2021"
publish = false

[dependencies]
serde_json = "=1.0.151"
serde = { version = "=1.0.229", features = ["derive"] }
serde_derive = "=1.0.229"
reqwest = { version = "=0.13.5", features = ["query"] }
async-trait = "=0.1.92"
futures-timer = "=3.0.4"
http = "=1.5.0"
