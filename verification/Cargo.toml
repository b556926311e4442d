[package]
name = "shardpix"
version = "0.1.0"
edition = "2021"
publish = false

[dependencies]
qstring = "*"
rand = "*"
actix-web = { version = "*", default-features = false, features = ["macros"] }
actix-files = "*"
tokio = { version = "*", features = ["fs", "time", "io-util", "rt", "macros", "sync"] }
reqwest = { version = "*", default-features = false }
serde = { version = "*", features = ["derive"] }
serde_json = "*"
lazy_static = "*"
bytes = "*"
