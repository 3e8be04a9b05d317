[package]
name = "dect"
version = "0.1.0"
edition = "2021"
publish = false

[dependencies]
serde_json = "=1.0.151"
bollard = { version = "=0.21.1", features = ["buildkit_providerless", "time"] }
clap = { version = "=4.6.7", features = ["derive"] }
futures-util = "=0.3.34"
termion = "=4.0.6"
tokio = { version = "=1.53.2", features = ["full"] }
tar = "=0.4.46"
flate2 = "=1.1.10"
http-body-util = "=0.1.5"
bytes = "=1.12.1"
