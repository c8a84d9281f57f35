[package]
name = "stm32_eth"
version = "0.1.0"
edition = "2021"
publish = false
