[package]
name = "super-simple-upload"
version = "0.1.0"
edition = "2021"
publish = false

[dependencies]
async-std = "1"
bytes = "0.5"
futures = "0.3"
hyper = "0.13"
lazy_static = "1.4"
log = "0.4"
rand = "0.7"
serde_json = "1"
simplelog = "0.8"
tokio = { version = "0.2", features = ["macros", "rt-threaded"] }
warp = "0.2"
