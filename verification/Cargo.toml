[package]
name = "weather_report"
version = "0.1.0"
edition = "2021"
publish = false

[dependencies]
dotenv = "0.15"
reqwest = { version = "0.12", features = ["blocking"] }
serde_json = "1"
