[package]
name = "mspm0l222x-hal"
version = "0.1.0"
edition = "2021"
publish = false

[dependencies]
bytemuck = "1"
cortex-m = "0.7"
mspm0l222x-pac = "*"
once_cell = "1"
thiserror = "2"
