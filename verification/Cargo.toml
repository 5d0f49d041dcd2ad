[package]
name = "aurelis"
version = "0.1.0"
edition = "2021"
publish = false

[dependencies]
uuid = { version = "1", features = ["v4", "serde"] }
bcrypt = "*"
chrono = "*"
serde = { version = "1", features = ["derive"] }
serde_json = "1"
bigdecimal = "*"
validator = { version = "*", features = ["derive"] }
axum = "*"
tokio = { version = "1", features = ["rt-multi-thread", "macros"] }
jsonwebtoken = "9"
thiserror = "*"
anyhow = "1"
diesel = { version = "2", features = ["postgres", "r2d2", "chrono", "uuid", "serde_json", "numeric"] }
tonic = "*"
