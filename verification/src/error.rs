//! What can go wrong with an operation of the device.

use embedded_hal::i2c::ErrorKind;
use vstd::prelude::*;
use vstd::std_specs::convert::FromSpecImpl;

verus! {

/// The kinds of failure of an I2C bus, as `embedded_hal` names them. The
/// driver hands a kind on as it got it and never looks inside.
#[verifier::external_type_specification]
#[verifier::external_body]
pub struct ExErrorKind(ErrorKind);

/// Why an operation of the device did not come to its end.
#[non_exhaustive]
#[derive(Clone, Copy, Debug, PartialEq, Eq)]
pub enum RadioError {
    /// A transaction on the bus failed; the kind is the one the bus reported.
    I2cError(ErrorKind),
    /// A parameter was out of its range. Nothing was sent to the bus.
    InvalidParameters,
}

impl From<ErrorKind> for RadioError {
    fn from(kind: ErrorKind) -> (error: RadioError) {
        RadioError::I2cError(kind)
    }
}

impl FromSpecImpl<ErrorKind> for RadioError {
    open spec fn obeys_from_spec() -> bool {
        true
    }

    open spec fn from_spec(kind: ErrorKind) -> RadioError {
        RadioError::I2cError(kind)
    }
}

impl RadioError {
    /// A short description of the error for a log or a display.
    pub fn message(&self) -> (text: &'static str)
        ensures
            self is I2cError ==> text@ == "I2c bus error!"@,
            self is InvalidParameters ==> text@ == "Invalid parameters"@,
    {
        match self {
            RadioError::I2cError(_) => "I2c bus error!",
            RadioError::InvalidParameters => "Invalid parameters",
        }
    }
}

} // verus!
