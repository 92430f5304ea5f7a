[package]
name = "tora_backend"
version = "0.1.0"
edition = "2021"
publish = false

[dependencies]
uuid = { version = "=1.27.0", features = ["v4"] }
time = { version = "=0.3.55", features = ["formatting", "parsing"] }
jsonwebtoken = "=9.3.1"
serde = { version = "=1.0.229", features = ["derive"] }
serde_json = "=1.0.151"
axum = "=0.8.9"
tokio = { version = "=1.53.2", features = ["rt-multi-thread", "macros", "net", "time"] }
azure_data_cosmos = { version = "=0.38.0", features = ["key_auth"] }
azure_core = "=1.1.0"
futures = "=0.3.34"
once_cell = "=1.21.4"
dashmap = "=6.2.1"
chrono = "=0.4.45"
rand = "=0.10.3"
reqwest = { version = "=0.13.5", default-features = false, features = ["json"] }
toml = "=1.1.7"
tracing = "=0.1.44"
tracing-subscriber = "=0.3.23"
tower-http = { version = "=0.7.1", features = ["fs"] }
dotenv = "=0.15.0"
