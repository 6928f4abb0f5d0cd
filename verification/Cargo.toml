[package]
name = "easy_ash"
version = "0.1.0"
edition = "2021"
publish = false

[dependencies]
anyhow = "=1.0.104"
ash = "=0.37.3"
ash-window = "=0.11.0"
bytes = "=1.12.1"
image = { version = "=0.24.9", default-features = false, features = ["png"] }
raw-window-handle = "=0.4.3"
thiserror = "=1.0.69"
