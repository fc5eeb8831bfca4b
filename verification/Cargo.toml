[package]
name = "mocap_suit"
version = "0.1.0"
edition = "2021"
publish = false

[dependencies]
bno055 = "0.3"
embedded-hal = "0.2"
env_logger = "0.10"
log = "0.4"
rppal = { version = "0.14", features = ["hal"] }
xca9548a = "0.2"
