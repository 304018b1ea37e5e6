[package]
name = "asset_pipeline"
version = "0.1.0"
edition = "2021"
publish = false

[dependencies]
xml-rs = "=0.8.29"
regex = "=1.13.1"
image = "=0.25.10"
clap = { version = "=4.6.7", features = ["derive"] }
glob = "=0.3.4"
