[package]
name = "bsr_bot"
version = "0.1.0"
edition = "2021"
publish = false

[dependencies]
json = "=0.12.4"
anyhow = "=1.0.104"
dotenv = "=0.15.0"
reqwest = { version = "=0.13.5", default-features = false, features = ["blocking"] }
tokio = { version = "=1.53.2", features = ["full"] }
twitchchat = { version = "=0.14.8", features = ["async", "tokio", "tokio-util"] }
zip = "=8.6.0"
