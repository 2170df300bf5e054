[package]
name = "request_body"
version = "0.1.0"
edition = "2021"
publish = false

[dependencies]
mime = "=0.3.17"
multipart = { version = "=0.18.0", default-features = false, features = ["client"] }
serde = "=1.0.229"
url = "=2.5.8"

[dev-dependencies]
tempfile = "=3.27.0"
