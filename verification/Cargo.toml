[package]
name = "launcher_core"
version = "0.1.0"
edition = "2021"
publish = false

[dependencies]
serde_json = "*"
dirs = "*"
local-ip-address = "*"
zip = "*"
reqwest = { version = "*", default-features = false, features = ["blocking"] }
