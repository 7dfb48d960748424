//! Errors of the RemoteXPC port locator.

use vstd::prelude::*;

verus! {

#[verifier::external_type_specification]
#[verifier::external_body]
pub struct ExFromHexError(::hex::FromHexError);

/// A failure to locate the DTServiceHub port.
#[derive(Debug)]
pub enum XpcError {
    HandshakeError(HandshakeError),
    ParseError(ParseError),
}

/// A failure to write the request frames.
#[derive(Debug)]
pub enum SendFrameError {
    IoError(std::io::Error),
    ParseError(ParseError),
}

/// A failure to read the reply frames.
#[derive(Debug)]
pub enum ReceiveFrameError {
    IoError(std::io::Error),
}

/// A failure of the exchange of frames.
#[derive(Debug)]
pub enum HandshakeError {
    IoError(std::io::Error),
    SendFrameError(SendFrameError),
    ReceiveFrameError(ReceiveFrameError),
}

/// A failure to read the port from the reply, or to build the request.
#[derive(Debug)]
pub enum ParseError {
    Io(std::io::Error),
    /// The named text is not in the reply.
    MatchError(String),
    /// The port digits are not UTF-8.
    Utf8,
    /// The port digits do not read as a 16-bit number.
    ParseIntError,
    FromHexError(::hex::FromHexError),
}

impl From<ParseError> for XpcError {
    fn from(value: ParseError) -> (r: XpcError) {
        XpcError::ParseError(value)
    }
}

impl vstd::std_specs::convert::FromSpecImpl<ParseError> for XpcError {
    open spec fn obeys_from_spec() -> bool {
        true
    }

    open spec fn from_spec(v: ParseError) -> XpcError {
        XpcError::ParseError(v)
    }
}

impl From<ReceiveFrameError> for XpcError {
    fn from(value: ReceiveFrameError) -> (r: XpcError) {
        XpcError::HandshakeError(HandshakeError::ReceiveFrameError(value))
    }
}

impl vstd::std_specs::convert::FromSpecImpl<ReceiveFrameError> for XpcError {
    open spec fn obeys_from_spec() -> bool {
        true
    }

    open spec fn from_spec(v: ReceiveFrameError) -> XpcError {
        XpcError::HandshakeError(HandshakeError::ReceiveFrameError(v))
    }
}

impl From<SendFrameError> for XpcError {
    fn from(value: SendFrameError) -> (r: XpcError) {
        XpcError::HandshakeError(HandshakeError::SendFrameError(value))
    }
}

impl vstd::std_specs::convert::FromSpecImpl<SendFrameError> for XpcError {
    open spec fn obeys_from_spec() -> bool {
        true
    }

    open spec fn from_spec(v: SendFrameError) -> XpcError {
        XpcError::HandshakeError(HandshakeError::SendFrameError(v))
    }
}

impl From<::hex::FromHexError> for SendFrameError {
    fn from(value: ::hex::FromHexError) -> (r: SendFrameError) {
        SendFrameError::ParseError(ParseError::FromHexError(value))
    }
}

impl vstd::std_specs::convert::FromSpecImpl<::hex::FromHexError> for SendFrameError {
    open spec fn obeys_from_spec() -> bool {
        true
    }

    open spec fn from_spec(v: ::hex::FromHexError) -> SendFrameError {
        SendFrameError::ParseError(ParseError::FromHexError(v))
    }
}

impl From<std::io::Error> for SendFrameError {
    fn from(value: std::io::Error) -> (r: SendFrameError) {
        SendFrameError::IoError(value)
    }
}

impl vstd::std_specs::convert::FromSpecImpl<std::io::Error> for SendFrameError {
    open spec fn obeys_from_spec() -> bool {
        true
    }

    open spec fn from_spec(v: std::io::Error) -> SendFrameError {
        SendFrameError::IoError(v)
    }
}

impl From<std::io::Error> for ReceiveFrameError {
    fn from(value: std::io::Error) -> (r: ReceiveFrameError) {
        ReceiveFrameError::IoError(value)
    }
}

impl vstd::std_specs::convert::FromSpecImpl<std::io::Error> for ReceiveFrameError {
    open spec fn obeys_from_spec() -> bool {
        true
    }

    open spec fn from_spec(v: std::io::Error) -> ReceiveFrameError {
        ReceiveFrameError::IoError(v)
    }
}

impl From<ReceiveFrameError> for HandshakeError {
    fn from(value: ReceiveFrameError) -> (r: HandshakeError) {
        HandshakeError::ReceiveFrameError(value)
    }
}

impl vstd::std_specs::convert::FromSpecImpl<ReceiveFrameError> for HandshakeError {
    open spec fn obeys_from_spec() -> bool {
        true
    }

    open spec fn from_spec(v: ReceiveFrameError) -> HandshakeError {
        HandshakeError::ReceiveFrameError(v)
    }
}

impl From<::hex::FromHexError> for ParseError {
    fn from(value: ::hex::FromHexError) -> (r: ParseError) {
        ParseError::FromHexError(value)
    }
}

impl vstd::std_specs::convert::FromSpecImpl<::hex::FromHexError> for ParseError {
    open spec fn obeys_from_spec() -> bool {
        true
    }

    open spec fn from_spec(v: ::hex::FromHexError) -> ParseError {
        ParseError::FromHexError(v)
    }
}

} // verus!
