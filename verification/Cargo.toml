[package]
name = "document_generator"
version = "0.1.0"
edition = "2021"
publish = false

[dependencies]
actix-cors = "=0.7.2"
actix-web = "=4.18.1"
actix-web-httpauth = "=0.8.3"
anyhow = "=1.0.104"
aws-sdk-s3 = "=1.152.0"
base64 = "0.22"
bytes = "=1.12.1"
chrono = { version = "=0.4.45", features = ["serde"] }
dotenv = "=0.15.0"
flate2 = "=1.1.10"
futures = "=0.3.34"
governor = "=0.10.4"
image = { version = "=0.25.10", default-features = false, features = ["png"] }
minijinja = "=3.0.3"
prometheus = { version = "=0.14.0", default-features = false, features = ["process"] }
qrcode = { version = "=0.14.1", default-features = false, features = ["image"] }
rayon = "=1.12.0"
rdkafka = "=0.39.0"
redis = { version = "=1.8.0", features = ["tokio-comp", "connection-manager"] }
reqwest = { version = "=0.12.28", default-features = false, features = ["json", "rustls-tls"] }
rust_xlsxwriter = "=0.101.0"
serde = { version = "=1.0.229", features = ["derive"] }
serde_json = "=1.0.154"
tokio = { version = "=1.54.1", features = ["full"] }
tracing = "=0.1.44"
tracing-subscriber = { version = "=0.3.23", features = ["env-filter"] }
uuid = { version = "=1.29.0", features = ["v4", "serde"] }
