[package]
name = "rbpf"
version = "0.2.0"
edition = "2021"
publish = false

[dependencies]
byteorder = "1"
cortex-m = "0.7"
cortex-m-rt = "0.7"
panic-halt = "0.2"
stm32f4xx-hal = { version = "0.16", features = ["stm32f446"] }
