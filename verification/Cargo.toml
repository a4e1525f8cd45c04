[package]
name = "preconf_api"
version = "0.1.0"
edition = "2021"
publish = false

[dependencies]
axum = "0.7"
hyper = "1"
serde_json = "1"
thiserror = "1"
