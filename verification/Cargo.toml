[package]
name = "copy_trader"
version = "0.1.0"
edition = "2021"
publish = false

[dependencies]
csv = "1"
dotenv = "0.15"
futures = "0.3"
rust_decimal = "1"
serde = { version = "1", features = ["derive"] }
serde_json = "1"
tokio = { version = "1", features = ["macros", "rt-multi-thread"] }
tokio-tungstenite = { version = "*", features = ["native-tls"] }
