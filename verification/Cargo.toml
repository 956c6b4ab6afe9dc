[package]
name = "cloud_cal"
version = "0.1.0"
edition = "2021"
publish = false

[dependencies]
efficient-sm2 = "*"
libsm = "*"
redis = { version = "*", default-features = false, features = ["tokio-comp"] }
tokio = { version = "*", features = ["rt", "time", "macros", "signal", "net"] }
serde = { version = "*", features = ["derive"] }
serde_json = "*"
axum = "*"
color-eyre = "*"
thiserror = "*"
num_enum = "*"
