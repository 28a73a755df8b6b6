[package]
name = "tweet_service"
version = "0.1.0"
edition = "2021"
publish = false

[dependencies]
chrono = "0.4"
actix-web = "4"
diesel = { version = "2", features = ["postgres", "r2d2", "chrono"] }
serde = { version = "1", features = ["derive"] }
