[package]
name = "ads122c04"
version = "0.1.0"
edition = "2021"
publish = false

[dependencies]
bytemuck = "1"
embedded-hal-async = "1.0"
