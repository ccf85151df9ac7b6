[package]
name = "fortuna"
version = "0.1.0"
edition = "2021"
publish = false

[dependencies]
rusty_v8 = "0.4"
hyper = "0.13"
tokio = { version = "0.2", features = ["full"] }
prost = "0.6"
crossbeam = "0.7"
futures = "0.3"
futures-util = "0.3"
reqwest = { version = "0.10", default-features = false }
