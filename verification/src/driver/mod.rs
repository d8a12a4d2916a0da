//! The sensor driver: register encodings and the bus exchanges of each operation.
pub mod codec;
pub mod otos;
pub mod protocol;
