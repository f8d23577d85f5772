[package]
name = "dlab_ble"
version = "0.1.0"
edition = "2021"
publish = false

[dependencies]
btleplug = "0.11"
futures = "0.3"
jni = "0.21"
thiserror = "1"
tokio = { version = "1", features = ["rt-multi-thread", "sync"] }
uuid = "1"
