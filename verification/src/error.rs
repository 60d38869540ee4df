//! The failures that port operations report.

use vstd::prelude::*;

verus! {

#[verifier::external_type_specification]
#[verifier::external_body]
pub struct ExSerialError(serialport::Error);

#[verifier::external_type_specification]
#[verifier::external_body]
pub struct ExIoError(std::io::Error);

/// Why a port operation failed.
#[derive(Debug)]
pub enum DmxError {
    /// The serial transport or the device behind it failed.
    Serial(serialport::Error),
    /// Input or output on the host failed.
    IO(std::io::Error),
    /// A frame was written to a port that is not open.
    PortClosed,
}

impl From<serialport::Error> for DmxError {
    fn from(e: serialport::Error) -> (r: DmxError) {
        DmxError::Serial(e)
    }
}

impl vstd::std_specs::convert::FromSpecImpl<serialport::Error> for DmxError {
    open spec fn obeys_from_spec() -> bool {
        true
    }

    open spec fn from_spec(e: serialport::Error) -> DmxError {
        DmxError::Serial(e)
    }
}

impl From<std::io::Error> for DmxError {
    fn from(e: std::io::Error) -> (r: DmxError) {
        DmxError::IO(e)
    }
}

impl vstd::std_specs::convert::FromSpecImpl<std::io::Error> for DmxError {
    open spec fn obeys_from_spec() -> bool {
        true
    }

    open spec fn from_spec(e: std::io::Error) -> DmxError {
        DmxError::IO(e)
    }
}

/// Calls `serialport::Error::from` on an I/O error, which keeps the error's
/// kind and its text. Nothing is claimed of the serial error that comes
/// back.
#[verifier::external_body]
pub(crate) fn serial_error_from_io(e: std::io::Error) -> serialport::Error {
    serialport::Error::from(e)
}

/// Calls `serialport::Error::new` to make the error of a write that ended
/// before all bytes were taken: its kind is that of an I/O error of the kind
/// `WriteZero`, its text is `description`. Nothing is claimed of the serial
/// error that comes back.
#[verifier::external_body]
pub(crate) fn short_write_error(description: &str) -> serialport::Error {
    serialport::Error::new(serialport::ErrorKind::Io(std::io::ErrorKind::WriteZero), description)
}

} // verus!
