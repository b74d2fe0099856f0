[package]
name = "meilisearch"
version = "0.1.0"
edition = "2021"
publish = false

[dependencies]
actix = "=0.13.5"
actix-web = { version = "=4.18.1", default-features = false, features = ["macros", "ws"] }
actix-web-actors = "=4.3.1"
async-stream = "=0.3.6"
futures-util = "=0.3.34"
tokio = { version = "=1.54.1", features = ["sync"] }
