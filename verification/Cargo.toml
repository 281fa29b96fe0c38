[package]
name = "pam_rustface"
version = "0.1.0"
edition = "2021"
publish = false

[dependencies]
image = { version = "=0.25.10", default-features = false, features = ["png"] }
log = "=0.4.35"
syslog = "=7.0.0"
rustface = "=0.1.7"
v4l = "=0.14.0"
ort = { version = "=2.0.0-rc.15", default-features = false, features = ["std", "ndarray", "load-dynamic"] }
ndarray = "0.17"
thiserror = "=2.0.21"
