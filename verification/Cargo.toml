[package]
name = "syncthing_watchdog"
version = "0.1.0"
edition = "2021"
publish = false

[dependencies]
base64 = "=0.23.1"
errno = "=0.3.14"
homedir = "=0.3.6"
hyper = { version = "=0.14.32", features = ["full"] }
hyper-reverse-proxy = "=0.5.1"
hyper-rustls = "=0.24.2"
rustls = { version = "=0.21.12", features = ["dangerous_configuration"] }
libc = "*"
serde = { version = "*", features = ["derive"] }
serde_json = "*"
sysinfo = "=0.29.11"
systemd-zbus = "=5.3.2"
tokio = { version = "=1.53.2", features = ["full"] }
which = "=8.0.6"
zbus = "=5.19.0"
