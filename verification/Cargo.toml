[package]
name = "qrush"
version = "0.5.0"
edition = "2021"
publish = false

[dependencies]
chrono = "0.4"
base64 = "0.21"
serde = { version = "1", features = ["derive"] }
serde_json = "1"
redis = { version = "0.23", default-features = false, features = ["tokio-comp", "aio"] }
tokio = { version = "1", features = ["rt-multi-thread", "macros", "time", "signal", "sync"] }
actix-web = { version = "4", default-features = false, features = ["macros"] }
tera = { version = "1", default-features = false }
anyhow = "1"
async-trait = "0.1"
futures = "0.3"
once_cell = "1"
clap = "4"
colored = "2"
gethostname = "0.4"
csv = "1"
tracing = "0.1"
nanoid = "0.4"
lazy_static = "1"
