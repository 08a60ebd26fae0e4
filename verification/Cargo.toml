[package]
name = "doodleiq"
version = "0.1.3"
edition = "2021"
publish = false

[dependencies]
axum = "0.8"
base64 = "0.22"
clap = { version = "4", features = ["derive", "env"] }
dotenvy = "0.15"
ed25519-dalek = { version = "2", features = ["rand_core"] }
env_logger = "0.11"
futures-util = "0.3"
iana-time-zone = "0.1"
log = "0.4"
rand_core = { version = "0.6", features = ["getrandom"] }
reqwest = { version = "0.13", features = ["json", "stream"] }
serde = { version = "1", features = ["derive"] }
serde_json = "1"
tokio = { version = "1", features = ["macros", "net", "rt-multi-thread", "signal", "sync", "time"] }
tower-http = { version = "0.6", features = ["cors"] }
