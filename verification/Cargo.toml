[package]
name = "nft_indexer"
version = "0.1.0"
edition = "2021"
publish = false

[dependencies]
anyhow = "1"
async-trait = "0.1"
bigdecimal = "=0.3.1"
chrono = "=0.4.45"
futures = "0.3"
log = "0.4"
num-bigint = "=0.4.8"
num-traits = "0.2"
serde = { version = "1", features = ["derive"] }
serde_json = "1"
sqlx = { version = "=0.7.4", default-features = false, features = ["runtime-tokio-rustls", "postgres", "chrono", "json"] }
tokio = { version = "1", features = ["rt-multi-thread", "macros"] }
