[package]
name = "backend"
version = "0.1.0"
edition = "2021"
publish = false

[dependencies]
hmac = "0.12"
sha2 = "0.10"
jwt = "0.16"
time = "0.3"
ring = "0.17"
uuid = { version = "1", features = ["v4"] }
serde = { version = "1", features = ["derive"] }
thiserror = "1"
rocket = "0.5"
rocket_dyn_templates = { version = "0.1", features = ["tera"] }
sqlx = { version = "0.7", default-features = false, features = ["sqlite", "runtime-tokio"] }
