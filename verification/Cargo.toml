[package]
name = "hypostats"
version = "0.1.0"
edition = "2021"
publish = false

[dependencies]
serde = { version = "=1.0.229", features = ["derive"] }
serde_json = "=1.0.154"
lazy_static = "=1.5.1"
pgrx = "=0.14.3"
sqlx = { version = "=0.9.0", features = ["postgres", "runtime-async-std"] }
tide = "=0.16.0"
async-std = { version = "=1.13.2", features = ["attributes"] }
http-types = "=2.12.0"
