[package]
name = "naad"
version = "1.1.0"
edition = "2021"
publish = false

[dependencies]
serde = { version = "=1.0.229", features = ["derive"] }
thiserror = "=2.0.21"
tracing = "=0.1.44"
hisab = "=1.4.0"
goonj = { version = "=1.4.3", features = ["binaural"] }

[dev-dependencies]
serde_json = "=1.0.154"
