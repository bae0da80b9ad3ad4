[package]
name = "telegram_chatbot"
version = "0.1.0"
edition = "2021"
publish = false

[dependencies]
axum = "=0.7.9"
chrono = "=0.4.45"
circular-buffer = "=1.2.1"
clap = { version = "=4.6.7", features = ["cargo"] }
csv = "=1.4.0"
forecast = "=3.0.0"
mime_guess = "=2.0.5"
regex = "=1.13.1"
reqwest = { version = "=0.12.28", features = ["json"] }
rust-embed = "=8.13.0"
rusty-money = "=0.5.1"
serde = { version = "=1.0.229", features = ["derive"] }
serde_derive = "=1.0.229"
simple_moving_average = "=1.0.2"
takecell = "=0.1.1"
teloxide = { version = "=0.17.0", features = ["macros"] }
tokio = { version = "=1.54.1", features = ["full"] }
tower-http = { version = "=0.6.11", features = ["cors"] }
uuid = { version = "=1.29.0", features = ["v4"] }

[dev-dependencies]
winnow = "=0.6.26"
