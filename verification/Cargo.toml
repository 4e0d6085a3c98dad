[package]
name = "yeye_floating_clock"
version = "0.2.0"
edition = "2021"
publish = false

[dependencies]
chrono = "=0.4.45"
httpdate = "=1.0.3"
serde = { version = "1", features = ["derive"] }
serde_json = "1"
rand = "0.9"
ureq = { version = "3", features = ["json"] }
tauri = { version = "2", default-features = false, features = [] }
core-foundation = "0.10"
core-graphics = "0.24"
