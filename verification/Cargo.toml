[package]
name = "imagor_rs"
version = "0.1.0"
edition = "2021"
publish = false

[dependencies]
sha1 = "=0.10.7"
hex = "=0.4.3"
url = "=2.5.8"
argon2 = "=0.5.3"
rand = "=0.8.8"
infer = "=0.16.0"
secrecy = "=0.10.3"
serde = { version = "=1.0.229", features = ["derive"] }
serde-aux = "=4.7.0"
thiserror = "=1.0.69"
axum = "=0.7.9"
tokio = { version = "=1.54.1", features = ["full"] }
tower-http = { version = "=0.5.2", features = ["trace"] }
tracing = "=0.1.44"
color-eyre = "=0.6.5"
libvips = "=1.7.6"
dotenvy = "=0.15.7"
reqwest = { version = "=0.12.28", default-features = false, features = ["rustls-tls"] }
aws-sdk-s3 = { version = "=1.157.0", default-features = false, features = ["behavior-version-latest", "rt-tokio"] }
google-cloud-storage = { version = "=0.22.1", default-features = false, features = ["rustls-tls", "auth"] }
