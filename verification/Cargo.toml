[package]
name = "async_executors"
version = "0.1.0"
edition = "2021"
publish = false

[dependencies]
futures-task = "=0.3.34"
futures-util = { version = "=0.3.34", features = ["channel"] }
futures-channel = "=0.3.34"
futures-executor = "=0.3.34"
tokio = { version = "=1.53.2", features = ["rt", "rt-multi-thread"] }
async-std = { version = "=1.13.2", features = ["unstable"] }
async-global-executor = "=3.1.0"
glommio = "=0.9.0"
nix = { version = "=0.31.3", features = ["sched"] }
wasm-bindgen-futures = "=0.4.79"
