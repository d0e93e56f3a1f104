[package]
name = "tmc2209_uart"
version = "0.1.0"
edition = "2021"
publish = false

[dependencies]
critical-section = { version = "*", features = ["std"] }
embedded-hal = "*"
embedded-io = "*"
fugit = "*"
stepper = "*"
tmc2209 = "*"
