[package]
name = "ib_async_dx"
version = "0.1.0"
edition = "2021"
publish = false

[dependencies]
jiff = "0.2"
indexmap = "2"
log = "0.4"
futures-core = "0.3"
roxmltree = "0.20"
ureq = { version = "2.12", features = ["native-tls"] }
native-tls = "0.2"
