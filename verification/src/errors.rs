//! Error kinds reported by device-facing operations.

use vstd::prelude::*;

verus! {

/// An error from a device-facing operation.
#[derive(Debug, PartialEq, Eq)]
pub enum Error {
    /// Construction-time validation found a missing required attribute;
    /// carries the offending device path.
    InvalidDevicePath(String),
    /// A trigger write was rejected by the device; carries the trigger name.
    UnsupportedTrigger(String),
    /// An underlying attribute read or write failed; carries a description.
    Io(String),
    /// A numeric attribute did not hold a valid non-negative integer;
    /// carries the offending text.
    Parse(String),
}

impl Error {
    /// A human-readable description of the error.
    pub fn message(&self) -> (r: String)
        ensures
            self is InvalidDevicePath ==> r@ == "invalid device path: "@ + self->InvalidDevicePath_0@,
            self is UnsupportedTrigger ==> r@ == "trigger unsupported: "@ + self->UnsupportedTrigger_0@,
            self is Io ==> r@ == "i/o failure: "@ + self->Io_0@,
            self is Parse ==> r@ == "parse failure: "@ + self->Parse_0@,
    {
        match self {
            Error::InvalidDevicePath(path) => String::from_str("invalid device path: ").concat(
                path.as_str(),
            ),
            Error::UnsupportedTrigger(trigger) => String::from_str("trigger unsupported: ").concat(
                trigger.as_str(),
            ),
            Error::Io(detail) => String::from_str("i/o failure: ").concat(detail.as_str()),
            Error::Parse(text) => String::from_str("parse failure: ").concat(text.as_str()),
        }
    }
}

} // verus!
