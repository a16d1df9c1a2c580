[package]
name = "poison_kinetics"
version = "0.1.0"
edition = "2021"
publish = false

[dependencies]
axum = "*"
axum-server = "*"
serde = { version = "*", features = ["derive"] }
tokio = { version = "*", features = ["macros", "rt-multi-thread"] }
tower-http = { version = "*", features = ["fs"] }
