[package]
name = "a3ot_modbus_protocol"
version = "0.1.0"
edition = "2021"
publish = false

[dependencies]
thiserror = "*"
