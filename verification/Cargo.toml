[package]
name = "buffer_pie"
version = "0.1.0"
edition = "2021"
publish = false

[dependencies]
rdev = { version = "*", features = ["serialize"] }
serde = { version = "1", features = ["derive"] }
serde_json = "1"
open = "*"
dirs = "*"
parking_lot = "*"
futures = "*"
anyhow = "1"
auto-launch = "*"
image = { version = "*", default-features = false, features = ["png"] }
raw-window-handle = "*"
