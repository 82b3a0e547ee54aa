[package]
name = "stm32f30x-hal"
version = "0.1.0"
edition = "2021"
publish = false

[dependencies]
cast = { version = "=0.2.7", default-features = false }
embedded-hal = { version = "=0.2.7", features = ["unproven"] }
stm32f30x = "=0.7.1"
