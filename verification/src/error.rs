//! The failures that the exchange reports to its caller.

use std::string::FromUtf8Error;
use vstd::prelude::*;
use vstd::std_specs::convert::FromSpecImpl;
use vstd::string::to_string_from_display_ensures;

verus! {

/// `std::io::Error`, carried through as it came from the transport.
#[verifier::external_type_specification]
#[verifier::external_body]
pub struct ExIoError(std::io::Error);

/// `bincode::ErrorKind`, carried through as it came from the serialiser.
#[verifier::external_type_specification]
#[verifier::external_body]
pub struct ExBincodeErrorKind(bincode::ErrorKind);

/// `std::string::FromUtf8Error`, read only for its text.
#[verifier::external_type_specification]
#[verifier::external_body]
pub struct ExFromUtf8Error(FromUtf8Error);

/// What can go wrong in an exchange. A failure is always one of these
/// values; none is turned into a packet of default fields.
#[derive(Debug)]
pub enum NtpError {
    /// The transport failed.
    Io(std::io::Error),
    /// A structured encoding or decoding failed, other than by length.
    Serde(bincode::Error),
    /// A packet was malformed or too short.
    InvalidResponse,
    /// The client's wait for a reply ran out.
    Timeout,
    /// Anything else, with its text.
    Unknown(String),
}

impl NtpError {
    /// The line of text that describes the error to a reader. For the
    /// variants that carry an error from elsewhere, the line ends with
    /// that error's own text.
    pub fn message(&self) -> (text: String)
        ensures
            match *self {
                NtpError::Io(err) => exists|detail: String|
                    to_string_from_display_ensures::<std::io::Error>(&err, detail) && text@
                        == "IO error: "@ + detail@,
                NtpError::Serde(err) => exists|detail: String|
                    to_string_from_display_ensures::<bincode::Error>(&err, detail) && text@
                        == "Serialization/Deserialization error: "@ + detail@,
                NtpError::InvalidResponse => text@ == "Invalid response received"@,
                NtpError::Timeout => text@ == "Timeout occurred"@,
                NtpError::Unknown(msg) => text@ == "Unknown error: "@ + msg@,
            },
    {
        match self {
            NtpError::Io(err) => {
                let detail = err.to_string();
                String::from_str("IO error: ").concat(detail.as_str())
            },
            NtpError::Serde(err) => {
                let detail = err.to_string();
                String::from_str("Serialization/Deserialization error: ").concat(detail.as_str())
            },
            NtpError::InvalidResponse => String::from_str("Invalid response received"),
            NtpError::Timeout => String::from_str("Timeout occurred"),
            NtpError::Unknown(msg) => String::from_str("Unknown error: ").concat(msg.as_str()),
        }
    }
}

impl From<std::io::Error> for NtpError {
    fn from(err: std::io::Error) -> (e: NtpError) {
        NtpError::Io(err)
    }
}

impl FromSpecImpl<std::io::Error> for NtpError {
    open spec fn obeys_from_spec() -> bool {
        true
    }

    open spec fn from_spec(err: std::io::Error) -> NtpError {
        NtpError::Io(err)
    }
}

impl From<bincode::Error> for NtpError {
    fn from(err: bincode::Error) -> (e: NtpError) {
        NtpError::Serde(err)
    }
}

impl FromSpecImpl<bincode::Error> for NtpError {
    open spec fn obeys_from_spec() -> bool {
        true
    }

    open spec fn from_spec(err: bincode::Error) -> NtpError {
        NtpError::Serde(err)
    }
}

impl From<FromUtf8Error> for NtpError {
    fn from(err: FromUtf8Error) -> (e: NtpError)
        ensures
            e matches NtpError::Unknown(msg) && to_string_from_display_ensures::<FromUtf8Error>(
                &err,
                msg,
            ),
    {
        NtpError::Unknown(err.to_string())
    }
}

impl FromSpecImpl<FromUtf8Error> for NtpError {
    open spec fn obeys_from_spec() -> bool {
        false
    }

    open spec fn from_spec(err: FromUtf8Error) -> NtpError {
        arbitrary()
    }
}

} // verus!
