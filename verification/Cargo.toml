[package]
name = "webmonitor_core"
version = "0.1.0"
edition = "2021"
publish = false

[dependencies]
scraper = "*"
similar = "*"
tokio = { version = "*", features = ["rt-multi-thread", "macros", "time", "sync"] }
futures = "*"
reqwest = { version = "*", default-features = false }
mongodb = "*"
bson = "*"
serde = { version = "*", features = ["derive"] }
serde_json = "*"
thiserror = "*"
log = "*"
env_logger = "*"
dotenv = "*"
async-trait = "*"
