[package]
name = "user_input"
version = "0.1.0"
edition = "2021"
publish = false

[dependencies]
rdev = { version = "0.5", features = ["serialize"] }
enigo = { version = "*", features = ["serde"] }
serde = { version = "1", features = ["derive"] }
lazy_static = "1"

[dev-dependencies]
serde_json = "1"
