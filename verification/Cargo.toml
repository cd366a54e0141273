[package]
name = "reimu_bot"
version = "0.1.0"
edition = "2021"
publish = false

[dependencies]
chrono = "0.4"
twitter-text = "*"
twitter_text_config = "*"
poise = "0.5"
serenity = "0.11"
sqlx = { version = "0.7", features = ["runtime-tokio", "tls-rustls", "postgres", "mysql"] }
tokio = { version = "1", features = ["full"] }
tokio-stream = "0.1"
axum = "0.6"
oauth2 = "4"
megalodon = "0.13"
serde = { version = "1", features = ["derive"] }
serde_json = "1"
mimalloc = "0.1"
