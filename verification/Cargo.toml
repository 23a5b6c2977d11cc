[package]
name = "slack_client"
version = "0.1.0"
edition = "2021"
publish = false

[dependencies]
serde_json = "1"
url = "2"
hyper = "0.10"
