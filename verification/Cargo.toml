[package]
name = "etc_os_release"
version = "0.1.0"
edition = "2021"
publish = false

[dependencies]
indexmap = "*"
url = "*"
chrono = { version = "*", default-features = false, features = ["std"] }
thiserror = "*"
