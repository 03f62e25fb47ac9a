[package]
name = "lg-buddy"
version = "0.1.0"
edition = "2021"
publish = false

[dependencies]
base64 = "0.22"
dbus = "0.9"
dbus-crossroads = "0.5"
futures = "0.3"
libc = "0.2"
rustls = { version = "0.23", default-features = false, features = ["ring", "std", "tls12", "logging"] }
semver = "1"
serde = { version = "1", features = ["derive"] }
serde_json = "1"
tokio = { version = "1", features = ["rt-multi-thread", "net", "time", "macros"] }
tokio-tungstenite = { version = "0.24", features = ["rustls-tls-webpki-roots"] }
tungstenite = "0.24"
ureq = "2"
uuid = { version = "1", features = ["v4"] }
