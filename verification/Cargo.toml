[package]
name = "sx126x_lora"
version = "0.1.0"
edition = "2021"
publish = false

[dependencies]
embassy-time = "*"
embedded-hal-async = "*"
lorawan-device = "*"
rand_core = "*"
spin_on = "*"
