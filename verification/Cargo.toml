[package]
name = "zed_dprint"
version = "0.1.0"
edition = "2021"
publish = false

[dependencies]
log = "0.4"
serde_json = "1"
zed_extension_api = "*"
