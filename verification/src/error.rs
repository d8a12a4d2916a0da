use vstd::prelude::*;

verus! {

/// Possible errors from Sparkfun OTOS
#[derive(Debug, Clone, Copy, PartialEq, Eq, Structural)]
pub enum Error {
    Timeout,
    I2cError,
    PinError,
    IncorrectProductID,
    CalibrationError,
    ScalarOutOfBounds,
}

impl Error {
    /// The text shown for this error. Only the bus and pin errors carry one;
    /// the others show as empty text.
    pub fn description(&self) -> (text: &'static str)
        ensures
            *self == Error::I2cError ==> text@ == "I2C communication error"@,
            *self == Error::PinError ==> text@ == "Interrurpt waiting error"@,
            *self != Error::I2cError && *self != Error::PinError ==> text@ == ""@,
    {
        match self {
            Error::I2cError => "I2C communication error",
            Error::PinError => "Interrurpt waiting error",
            _ => "",
        }
    }
}

} // verus!
