[package]
name = "sparkfun_otos"
version = "0.1.0"
edition = "2021"
publish = false

[dependencies]
embedded-hal-async = "1.0"
nalgebra = "*"
bitfield-struct = "*"
arrayref = "*"
