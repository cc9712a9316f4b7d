[package]
name = "loopfetch"
version = "0.1.0"
edition = "2021"
publish = false

[dependencies]
mlua = { version = "*", features = ["lua54", "vendored"] }
sysinfo = { version = "*", default-features = false, features = ["system", "disk"] }
mpris = "*"
nvml-wrapper = "*"
