[package]
name = "adxl355"
version = "0.2.0"
edition = "2021"
publish = false

[dependencies]
accelerometer = "*"
embedded-hal = "0.2"
