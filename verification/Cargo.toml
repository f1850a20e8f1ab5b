[package]
name = "ad_monitor"
version = "0.1.0"
edition = "2021"
publish = false

[dependencies]
dotenv = "=0.15.0"
openssl = "=0.10.81"
postgres-openssl = "=0.5.3"
reqwest = { version = "=0.13.5", features = ["json", "query"] }
serde = { version = "=1.0.229", features = ["derive"] }
serde_json = "=1.0.151"
thiserror = "=2.0.21"
tokio = { version = "=1.53.2", features = ["macros", "rt-multi-thread", "time", "sync"] }
tokio-postgres = "=0.7.18"
url = "=2.5.8"
