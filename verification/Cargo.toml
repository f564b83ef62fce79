[package]
name = "mongo_kv"
version = "0.1.0"
edition = "2021"
publish = false

[dependencies]
mongodb = "=2.8.2"
bson = "=2.15.0"
serde = "=1.0.229"
async-trait = "=0.1.92"

[dev-dependencies]
tokio = { version = "=1.54.1", features = ["rt"] }
