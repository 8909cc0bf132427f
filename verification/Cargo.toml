[package]
name = "rpi_server"
version = "0.1.0"
edition = "2021"
publish = false

[dependencies]
actix-files = "0.6"
actix-web = { version = "4", default-features = false, features = ["macros", "cookies"] }
actix-web-httpauth = "0.8"
anyhow = "1"
backoff = { version = "=0.4.0", features = ["tokio"] }
bluez-async = "=0.9.0"
chrono = "=0.4.45"
claxon = "=0.4.3"
cpal = "=0.15.3"
figment = { version = "0.10", features = ["yaml", "env"] }
flac-bound = "=0.5.0"
futures = "0.3"
hound = "=3.5.1"
log = "0.4"
metaflac = "=0.2.8"
mime = "0.3"
rodio = "=0.20.1"
serde = { version = "1", features = ["derive"] }
serde_yaml = "0.9"
systemd-journal-logger = "2"
thiserror = "1"
tokio = { version = "1", features = ["full"] }
tokio-udev = "=0.10.0"
uuid = "1"
zbus = "4"
