[package]
name = "sms_client"
version = "0.1.0"
edition = "2021"
publish = false

[dependencies]
url = "2"
http = "1"
rustls-pemfile = "2"
rustls-pki-types = "1"
rustls = { version = "0.23", default-features = false, features = ["ring", "std"] }
serde = { version = "1", features = ["derive"] }
serde_json = "1"
thiserror = "2"
log = "0.4"
futures-util = "0.3"
tokio = { version = "1", features = ["rt", "macros", "sync", "time", "net"] }
tungstenite = "0.26"
tokio-tungstenite = { version = "0.26", features = ["rustls-tls-webpki-roots"] }
reqwest = { version = "0.12", default-features = false, features = ["json", "rustls-tls"] }
