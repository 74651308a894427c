[package]
name = "gpio"
version = "0.1.0"
edition = "2021"
publish = false

[dependencies]
stm32f30x = "0.8"
embedded-hal = "0.2"
