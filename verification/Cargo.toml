[package]
name = "iscsi_target"
version = "0.1.0"
edition = "2021"
publish = false

[dependencies]
hex = "0.4"
md5 = "0.7"
rand = "0.8"
thiserror = "1"
log = "0.4"

[dev-dependencies]
byteorder = "1"
