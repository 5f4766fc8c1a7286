[package]
name = "stm32_rcc"
version = "0.1.0"
edition = "2021"
publish = false

[dependencies]
cortex-m = "0.7"
embedded-hal = "0.2"
nb = "1"
void = { version = "1", default-features = false }
stm32f4 = { version = "*", features = ["stm32f407"] }
