[package]
name = "block_server"
version = "0.1.0"
edition = "2021"
publish = false

[dependencies]
serde_json = { version = "=1.0.151", features = ["preserve_order"] }
flate2 = "=1.1.10"
tar = "=0.4.46"
actix-web = "*"
actix-cors = "*"
redis = { version = "=1.7.1", features = ["tokio-comp"] }
tokio = { version = "*", features = ["full"] }
futures-util = "*"
dotenv = "*"
tracing = "*"
tracing-subscriber = { version = "*", features = ["env-filter"] }
tracing-actix-web = "*"
openssl-probe = "*"
