//! What can go wrong between the host and the target.

use crate::protocol;
use crate::protocol::FrameError;
use vstd::prelude::*;
use vstd::string::StringExecFns;
use vstd::std_specs::convert::FromSpecImpl;

verus! {

/// Why an operation on the port failed, as far as the protocol tells failures
/// apart.
#[derive(Debug, Clone, Copy, PartialEq, Eq, Structural)]
pub enum IoErrorKind {
    /// The operation gave up after the time that the port allows a read.
    TimedOut,
    /// Any other failure.
    Other,
}

/// A failure of reading from, or writing to, the port.
#[derive(Debug, Clone, PartialEq, Eq)]
pub struct IoError {
    /// Why the operation failed.
    pub kind: IoErrorKind,
    /// The failure in words, for the user.
    pub message: String,
}

/// Why the serial port refused an operation.
#[derive(Debug, Clone, Copy, PartialEq, Eq, Structural)]
pub enum SerialErrorKind {
    /// The device is not there, or another process has it.
    NoDevice,
    /// A parameter was wrong.
    InvalidInput,
    /// The port cannot say what went wrong.
    Unknown,
    /// Reading or writing failed.
    Io,
}

/// A failure of opening, configuring or driving the serial port.
#[derive(Debug, Clone, PartialEq, Eq)]
pub struct SerialError {
    /// Why the port refused.
    pub kind: SerialErrorKind,
    /// The failure in words, for the user.
    pub description: String,
}

/// A failure of an operation of the programmer.
#[derive(Debug, Clone, PartialEq, Eq)]
pub enum Error {
    /// The target refused what it was sent.
    NAck,
    /// The target said that it is busy.
    Busy,
    /// No attempt to identify the target succeeded.
    Unidentified,
    /// A value does not fit its wire format.
    ProtocolConversion(protocol::Error),
    /// Reading from, or writing to, the port failed.
    Io(IoError),
    /// The serial port refused an operation.
    Serial(SerialError),
    /// The target sent bytes that are not what was expected.
    Frame(FrameError),
}

impl Error {
    /// The failure in words.
    pub open spec fn spec_text(self) -> Seq<char> {
        match self {
            Error::NAck => "negative ack"@,
            Error::Busy => "device is busy"@,
            Error::Unidentified => "cannot identify device"@,
            Error::ProtocolConversion(error) => "protocol conversion error: "@
                + error.spec_text(),
            Error::Io(error) => "io error: "@ + error.message@,
            Error::Serial(error) => "serial error: "@ + error.description@,
            Error::Frame(error) => "frame error: "@ + error.spec_text(),
        }
    }

    /// Writes the failure in words.
    pub fn to_string(&self) -> (words: String)
        ensures
            words@ == self.spec_text(),
    {
        match self {
            Error::NAck => String::from_str("negative ack"),
            Error::Busy => String::from_str("device is busy"),
            Error::Unidentified => String::from_str("cannot identify device"),
            Error::ProtocolConversion(error) => {
                let mut words = String::from_str("protocol conversion error: ");
                words.append(error.to_string().as_str());
                words
            },
            Error::Io(error) => {
                let mut words = String::from_str("io error: ");
                words.append(error.message.as_str());
                words
            },
            Error::Serial(error) => {
                let mut words = String::from_str("serial error: ");
                words.append(error.description.as_str());
                words
            },
            Error::Frame(error) => {
                let mut words = String::from_str("frame error: ");
                words.append(error.to_string().as_str());
                words
            },
        }
    }

    /// Whether the target refused what it was sent.
    pub fn is_nack(&self) -> (nack: bool)
        ensures
            nack == (*self is NAck),
    {
        matches!(self, Error::NAck)
    }

    /// Whether the target said that it is busy.
    pub fn is_busy(&self) -> (busy: bool)
        ensures
            busy == (*self is Busy),
    {
        matches!(self, Error::Busy)
    }

    /// Whether no attempt to identify the target succeeded.
    pub fn is_unidentified(&self) -> (unidentified: bool)
        ensures
            unidentified == (*self is Unidentified),
    {
        matches!(self, Error::Unidentified)
    }

    /// Whether a value did not fit its wire format.
    pub fn is_protocol_conversion(&self) -> (conversion: bool)
        ensures
            conversion == (*self is ProtocolConversion),
    {
        matches!(self, Error::ProtocolConversion(..))
    }

    /// Returns the conversion error, if this is one.
    pub fn as_protocol_conversion(&self) -> (inner: Option<&protocol::Error>)
        ensures
            match *self {
                Error::ProtocolConversion(e) => inner == Some(&e),
                _ => inner is None,
            },
    {
        match self {
            Error::ProtocolConversion(e) => Some(e),
            _ => None,
        }
    }

    /// Gives the conversion error up, if this is one.
    pub fn into_protocol_conversion(self) -> (inner: Option<protocol::Error>)
        ensures
            match self {
                Error::ProtocolConversion(e) => inner == Some(e),
                _ => inner is None,
            },
    {
        match self {
            Error::ProtocolConversion(e) => Some(e),
            _ => None,
        }
    }

    /// Whether reading or writing failed.
    pub fn is_io_error(&self) -> (io: bool)
        ensures
            io == (*self is Io),
    {
        matches!(self, Error::Io(..))
    }

    /// Returns the failure of reading or writing, if this is one.
    pub fn as_io_error(&self) -> (inner: Option<&IoError>)
        ensures
            match *self {
                Error::Io(e) => inner == Some(&e),
                _ => inner is None,
            },
    {
        match self {
            Error::Io(e) => Some(e),
            _ => None,
        }
    }

    /// Gives the failure of reading or writing up, if this is one.
    pub fn into_io_error(self) -> (inner: Option<IoError>)
        ensures
            match self {
                Error::Io(e) => inner == Some(e),
                _ => inner is None,
            },
    {
        match self {
            Error::Io(e) => Some(e),
            _ => None,
        }
    }

    /// Whether the serial port refused an operation.
    pub fn is_serial_error(&self) -> (serial: bool)
        ensures
            serial == (*self is Serial),
    {
        matches!(self, Error::Serial(..))
    }

    /// Returns the failure of the serial port, if this is one.
    pub fn as_serial_error(&self) -> (inner: Option<&SerialError>)
        ensures
            match *self {
                Error::Serial(e) => inner == Some(&e),
                _ => inner is None,
            },
    {
        match self {
            Error::Serial(e) => Some(e),
            _ => None,
        }
    }

    /// Gives the failure of the serial port up, if this is one.
    pub fn into_serial_error(self) -> (inner: Option<SerialError>)
        ensures
            match self {
                Error::Serial(e) => inner == Some(e),
                _ => inner is None,
            },
    {
        match self {
            Error::Serial(e) => Some(e),
            _ => None,
        }
    }

    /// Whether the target sent bytes that are not what was expected.
    pub fn is_frame_error(&self) -> (frame: bool)
        ensures
            frame == (*self is Frame),
    {
        matches!(self, Error::Frame(..))
    }

    /// Returns the decoding failure, if this is one.
    pub fn as_frame_error(&self) -> (inner: Option<&FrameError>)
        ensures
            match *self {
                Error::Frame(e) => inner == Some(&e),
                _ => inner is None,
            },
    {
        match self {
            Error::Frame(e) => Some(e),
            _ => None,
        }
    }

    /// Gives the decoding failure up, if this is one.
    pub fn into_frame_error(self) -> (inner: Option<FrameError>)
        ensures
            match self {
                Error::Frame(e) => inner == Some(e),
                _ => inner is None,
            },
    {
        match self {
            Error::Frame(e) => Some(e),
            _ => None,
        }
    }
}

impl FromSpecImpl<protocol::Error> for Error {
    open spec fn obeys_from_spec() -> bool {
        true
    }

    open spec fn from_spec(value: protocol::Error) -> Self {
        Error::ProtocolConversion(value)
    }
}

impl From<protocol::Error> for Error {
    fn from(value: protocol::Error) -> (error: Self) {
        Error::ProtocolConversion(value)
    }
}

impl FromSpecImpl<IoError> for Error {
    open spec fn obeys_from_spec() -> bool {
        true
    }

    open spec fn from_spec(value: IoError) -> Self {
        Error::Io(value)
    }
}

impl From<IoError> for Error {
    fn from(value: IoError) -> (error: Self) {
        Error::Io(value)
    }
}

impl FromSpecImpl<SerialError> for Error {
    open spec fn obeys_from_spec() -> bool {
        true
    }

    open spec fn from_spec(value: SerialError) -> Self {
        Error::Serial(value)
    }
}

impl From<SerialError> for Error {
    fn from(value: SerialError) -> (error: Self) {
        Error::Serial(value)
    }
}

impl FromSpecImpl<FrameError> for Error {
    open spec fn obeys_from_spec() -> bool {
        true
    }

    open spec fn from_spec(value: FrameError) -> Self {
        Error::Frame(value)
    }
}

impl From<FrameError> for Error {
    fn from(value: FrameError) -> (error: Self) {
        Error::Frame(value)
    }
}

} // verus!
