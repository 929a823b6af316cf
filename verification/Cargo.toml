[package]
name = "ucp"
version = "0.1.0"
edition = "2021"
publish = false

[dependencies]
futures = "=0.3.34"
os_socketaddr = "=0.2.5"
tokio = { version = "=1.54.1", features = ["sync"] }
