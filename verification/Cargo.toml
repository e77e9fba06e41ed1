[package]
name = "blocktalk"
version = "0.1.0"
edition = "2021"
publish = false

[dependencies]
bitcoin = "*"
capnp = "*"
capnp-rpc = "*"
log = "0.4"
tokio = { version = "1", features = ["net", "rt"] }
tokio-util = { version = "0.7", features = ["compat"] }
