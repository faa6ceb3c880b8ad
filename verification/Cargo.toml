[package]
name = "songstore"
version = "0.1.0"
edition = "2021"
publish = false

[dependencies]
uuid = { version = "=1.27.0", features = ["v4"] }
chrono = { version = "=0.4.45", default-features = false, features = ["std", "clock"] }
serde = { version = "=1.0.229", features = ["derive"] }
serde_json = "=1.0.151"
http = "=1.5.0"
warp = { version = "=0.4.3", default-features = false }
tokio = { version = "=1.53.2", features = ["macros", "rt-multi-thread"] }
rusoto_core = { version = "=0.47.0", default-features = false, features = ["rustls"] }
rusoto_dynamodb = { version = "=0.47.0", default-features = false, features = ["rustls"] }
serde_dynamodb = "=0.9.0"
lapin = "=2.3.4"
amq-protocol-types = "=7.1.2"
log = "=0.4.34"
pretty_env_logger = "=0.5.0"
