[package]
name = "onlivfe"
version = "0.1.0"
edition = "2021"
publish = false

[dependencies]
vrc = { version = "=0.5.0", features = ["api_client"] }
chilloutvr = { version = "=0.6.0", features = ["http_client", "ws_client"] }
resonite = { version = "=0.4.0", features = ["http_client"] }
racal = { version = "*", features = ["reqwest"] }
time = "=0.3.55"
uuid = { version = "=1.29.0", features = ["v4", "serde"] }
serde = { version = "=1.0.229", features = ["derive"] }
serde_json = "=1.0.154"
directories = "=6.0.0"
tokio = { version = "=1.54.1", features = ["sync"] }
tracing = "=0.1.44"
tracing-subscriber = { version = "=0.3.23", features = ["env-filter"] }
human-panic = "=2.0.8"
dotenvy = "=0.15.7"
