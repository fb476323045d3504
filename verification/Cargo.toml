[package]
name = "degen_siwe_server"
version = "0.1.0"
edition = "2021"
publish = false

[dependencies]
actix-cors = "0.7"
actix-web = { version = "4", default-features = false, features = ["macros"] }
bytes = "1"
dotenvy = "0.15"
env_logger = { version = "0.11", default-features = false }
ethers = { version = "=2.0.14", default-features = false }
hex = "=0.4.3"
rand = "0.8"
rust_decimal = { version = "1", features = ["db-tokio-postgres"] }
serde = { version = "1", features = ["derive"] }
tokio = { version = "1", features = ["macros", "rt-multi-thread"] }
tokio-postgres = "0.7"
utoipa = "5"
