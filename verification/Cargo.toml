[package]
name = "stepper"
version = "0.1.0"
edition = "2021"
publish = false

[dependencies]
embedded-hal = "1"
embedded-hal-async = "1"
fugit = "0.3"
fugit-timer = "0.2"
nb = "1"
ramp-maker = "0.2"
fixed = "1"
