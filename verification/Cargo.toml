[package]
name = "crab_rocket"
version = "0.1.0"
edition = "2021"
publish = false

[dependencies]
chrono = { version = "0.4", features = ["serde"] }
diesel = { version = "2", features = ["postgres", "chrono"] }
rocket = { version = "0.5", features = ["json"] }
serde_json = "1"
utoipa = { version = "5", features = ["chrono"] }
