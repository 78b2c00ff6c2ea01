[package]
name = "toml_bridge"
version = "0.1.0"
edition = "2021"
publish = false

[dependencies]
toml = "*"
mlua = { version = "*", features = ["lua54", "vendored"] }
