[package]
name = "ws_relay"
version = "0.1.0"
edition = "2021"
publish = false

[dependencies]
actix = "*"
actix-web = { version = "*", default-features = false, features = ["macros"] }
actix-web-actors = "*"
actix-ws = "*"
futures = "*"
log = "*"
serde = { version = "*", features = ["derive"] }
tokio = { version = "*", features = ["sync", "rt", "time", "macros"] }
tokio-tungstenite = "*"
