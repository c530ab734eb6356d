[package]
name = "vts"
version = "0.1.0"
edition = "2021"
publish = false

[dependencies]
k256 = "0.13"
rand_core = { version = "0.6", features = ["getrandom"] }
base64 = "0.22"
chrono = "0.4"
serde = { version = "1", features = ["derive"] }
serde_json = "1"
axum = "*"
tokio = { version = "1", features = ["rt-multi-thread", "macros", "net", "time"] }
reqwest = { version = "*", default-features = false, features = ["blocking", "json"] }
