[package]
name = "deskstream"
version = "0.1.0"
edition = "2021"
publish = false

[dependencies]
sha2 = "=0.10.9"
rand = "=0.8.8"
serde = { version = "=1.0.229", features = ["derive"] }
serde_json = "=1.0.154"
tungstenite = "=0.21.0"
ctrlc = "=3.5.2"
image = { version = "0.25", default-features = false, features = ["png"] }
