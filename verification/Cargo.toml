[package]
name = "pokerole_discord_bot"
version = "0.1.0"
edition = "2021"
publish = false

[dependencies]
rand = "0.8"
regex = "1"
chrono = "0.4"
log = "0.4"
futures = "0.3"
strum = { version = "0.26", features = ["derive"] }
tokio = { version = "1", features = ["macros", "rt-multi-thread"] }
poise = "0.6"
serenity = "0.12"
sqlx = { version = "0.7", default-features = false, features = ["sqlite", "runtime-tokio"] }
image = { version = "0.24", default-features = false, features = ["png", "gif"] }
