[package]
name = "todoist_bot"
version = "0.1.0"
edition = "2021"
publish = false

[dependencies]
anyhow = "1"
async-trait = "*"
axum = { version = "*", features = ["macros"] }
base64 = "*"
chrono = "*"
chrono-tz = "*"
clap = { version = "*", features = ["derive"] }
color-print = "*"
dotenv = "*"
ed25519-dalek = "2"
futures = "*"
iana-time-zone = "*"
once_cell = "1"
openai_api_rust = "*"
reqwest = { version = "*", features = ["json"] }
serde = { version = "1", features = ["derive"] }
serde_json = "1"
thiserror = "*"
time = { version = "*", features = ["serde-well-known"] }
tokio = { version = "1", features = ["full"] }
tracing = "*"
tracing-subscriber = "*"
twilight-http = "*"
twilight-model = "*"
twilight-util = { version = "*", features = ["builder"] }
url = "2"
