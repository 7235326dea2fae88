[package]
name = "dog_registry"
version = "0.1.0"
edition = "2021"
publish = false

[dependencies]
parking_lot = "0.12"
uuid = { version = "1", features = ["v4"] }
serde = { version = "1", features = ["derive"] }
serde_json = "1"
tokio = { version = "1", features = ["macros", "rt-multi-thread"] }
reqwest = { version = "0.11", default-features = false, features = ["json"] }
warp = { version = "0.3", default-features = false }
