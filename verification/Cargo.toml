[package]
name = "liftwatch"
version = "0.1.0"
edition = "2021"
publish = false

[dependencies]
i2cdev = "*"
nats = "*"
serde = { version = "1", features = ["derive"] }
serde_json = "1"
time = { version = "0.3", features = ["serde-well-known", "formatting"] }
