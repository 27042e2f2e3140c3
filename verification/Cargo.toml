[package]
name = "modbus_rtu"
version = "0.1.0"
edition = "2021"
publish = false

[dependencies]
crc16 = "0.4"
embedded-hal = "0.2"
nb = "0.1"
