[package]
name = "async_transmit"
version = "0.1.0"
edition = "2021"
publish = false

[dependencies]
async-trait = "=0.1.92"
futures-sink = "=0.3.34"
futures-util = { version = "=0.3.34", features = ["sink"] }
futures-executor = "=0.3.34"
async-channel = "=2.5.0"
