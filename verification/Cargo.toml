[package]
name = "market_fanout"
version = "0.1.0"
edition = "2021"
publish = false

[dependencies]
serde_json = "=1.0.151"
serde = { version = "*", features = ["derive"] }
tokio = { version = "*", features = ["sync", "time", "rt-multi-thread", "macros"] }
actix-web = "*"
actix-files = "*"
async-stream = "*"
redis = "*"
tera = { version = "=2.4.0", features = ["glob_fs"] }
num_cpus = "*"
