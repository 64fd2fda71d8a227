[package]
name = "gateway_unlock"
version = "0.1.0"
edition = "2021"
publish = false

[dependencies]
md5 = "*"
minreq = "*"
netroute = "*"
serde_json = "*"
