[package]
name = "store_client"
version = "0.1.0"
edition = "2021"
publish = false

[dependencies]
colored = "2"
reqwest = { version = "0.12", features = ["json"] }
serde = { version = "1", features = ["derive"] }
tokio = { version = "1", features = ["macros", "rt-multi-thread"] }
