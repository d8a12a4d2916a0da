//! Driver logic for the SparkFun Optical Tracking Odometry Sensor (OTOS).
//!
//! The sensor is reached over I2C. This crate holds everything that decides
//! what goes over the bus and what comes back of it: the register map, the
//! bit layout of the configuration and version registers, the little-endian
//! pose encoding, and the exchange that each driver operation performs.
pub mod driver;
pub mod error;
pub mod registers;

pub use driver::codec::RawPose;
pub use driver::otos::SignalProcessConfig;
pub use driver::otos::SparkFunOTOS;
pub use driver::otos::Version;
pub use driver::otos::Versions;
pub use driver::protocol::{Action, Command, Event, Exchange, Quantity, Reply};
pub use error::Error;

use vstd::prelude::*;

verus! {

/// Value of the product id register of a genuine OTOS.
pub const PRODUCT_ID: u8 = 0x5F;

/// Default 7-bit I2C address of the sensor.
pub const DEFAULT_ADDR: u8 = 0x17;

} // verus!
