//! Errors of the usbmuxd and lockdown exchanges.

use vstd::prelude::*;

verus! {

#[verifier::external_type_specification]
#[verifier::external_body]
pub struct ExIoError(std::io::Error);

#[verifier::external_type_specification]
#[verifier::external_body]
pub struct ExTlsError(::rustls::Error);

#[verifier::external_type_specification]
#[verifier::external_body]
pub struct ExPemError(::rustls_pki_types::pem::Error);

#[verifier::external_type_specification]
#[verifier::external_body]
pub struct ExInvalidDnsNameError(::rustls_pki_types::InvalidDnsNameError);

#[verifier::external_type_specification]
#[verifier::external_body]
pub struct ExJsonError(::serde_json::Error);

/// A failure to frame, send or read one message.
#[derive(Debug)]
pub enum MessageOperationError {
    Io(std::io::Error),
    Plist(::plist::Error),
    UsbmuxSockError(UsbmuxSockError),
    /// The stream that the message needs is not open.
    MissingStream,
    /// The reply is too short to hold its own header.
    ResponseError,
    /// The message is too long for its length field.
    Oversized,
}

/// A failure of a usbmuxd or lockdown operation.
#[derive(Debug)]
pub enum UsbmuxOperationError {
    Io(std::io::Error),
    MessageOperationError(MessageOperationError),
    UsbmuxSockError(UsbmuxSockError),
    Plist(::plist::Error),
    JsonError(::serde_json::Error),
    SslError(SslError),
    /// A pair-record field that the operation needs was never read.
    MissingArguments(&'static str),
    /// The pair record lacks the named field, or holds it with another type.
    MissingPairRecordField(&'static str),
    /// A reply lacks what the operation expects of it.
    ParseError,
    /// The device reports developer mode off, or does not report it.
    DeveloperModeDisabled,
    Error(String),
}

/// A failure to reach the usbmuxd endpoint.
#[derive(Debug)]
pub enum UsbmuxSockError {
    Io(std::io::Error),
}

/// A failure to set up or run TLS on a stream.
#[derive(Debug)]
pub enum SslError {
    Ssl(::rustls::Error),
    Io(std::io::Error),
    UsbmuxSockError(UsbmuxSockError),
    PemError(::rustls_pki_types::pem::Error),
    SslSockConfigError(::rustls_pki_types::InvalidDnsNameError),
}

impl From<std::io::Error> for MessageOperationError {
    fn from(value: std::io::Error) -> (r: MessageOperationError) {
        MessageOperationError::Io(value)
    }
}

impl vstd::std_specs::convert::FromSpecImpl<std::io::Error> for MessageOperationError {
    open spec fn obeys_from_spec() -> bool {
        true
    }

    open spec fn from_spec(v: std::io::Error) -> MessageOperationError {
        MessageOperationError::Io(v)
    }
}

impl From<::plist::Error> for MessageOperationError {
    fn from(value: ::plist::Error) -> (r: MessageOperationError) {
        MessageOperationError::Plist(value)
    }
}

impl vstd::std_specs::convert::FromSpecImpl<::plist::Error> for MessageOperationError {
    open spec fn obeys_from_spec() -> bool {
        true
    }

    open spec fn from_spec(v: ::plist::Error) -> MessageOperationError {
        MessageOperationError::Plist(v)
    }
}

impl From<UsbmuxSockError> for MessageOperationError {
    fn from(value: UsbmuxSockError) -> (r: MessageOperationError) {
        MessageOperationError::UsbmuxSockError(value)
    }
}

impl vstd::std_specs::convert::FromSpecImpl<UsbmuxSockError> for MessageOperationError {
    open spec fn obeys_from_spec() -> bool {
        true
    }

    open spec fn from_spec(v: UsbmuxSockError) -> MessageOperationError {
        MessageOperationError::UsbmuxSockError(v)
    }
}

impl From<std::io::Error> for UsbmuxOperationError {
    fn from(value: std::io::Error) -> (r: UsbmuxOperationError) {
        UsbmuxOperationError::Io(value)
    }
}

impl vstd::std_specs::convert::FromSpecImpl<std::io::Error> for UsbmuxOperationError {
    open spec fn obeys_from_spec() -> bool {
        true
    }

    open spec fn from_spec(v: std::io::Error) -> UsbmuxOperationError {
        UsbmuxOperationError::Io(v)
    }
}

impl From<MessageOperationError> for UsbmuxOperationError {
    fn from(value: MessageOperationError) -> (r: UsbmuxOperationError) {
        UsbmuxOperationError::MessageOperationError(value)
    }
}

impl vstd::std_specs::convert::FromSpecImpl<MessageOperationError> for UsbmuxOperationError {
    open spec fn obeys_from_spec() -> bool {
        true
    }

    open spec fn from_spec(v: MessageOperationError) -> UsbmuxOperationError {
        UsbmuxOperationError::MessageOperationError(v)
    }
}

impl From<UsbmuxSockError> for UsbmuxOperationError {
    fn from(value: UsbmuxSockError) -> (r: UsbmuxOperationError) {
        UsbmuxOperationError::UsbmuxSockError(value)
    }
}

impl vstd::std_specs::convert::FromSpecImpl<UsbmuxSockError> for UsbmuxOperationError {
    open spec fn obeys_from_spec() -> bool {
        true
    }

    open spec fn from_spec(v: UsbmuxSockError) -> UsbmuxOperationError {
        UsbmuxOperationError::UsbmuxSockError(v)
    }
}

impl From<::plist::Error> for UsbmuxOperationError {
    fn from(value: ::plist::Error) -> (r: UsbmuxOperationError) {
        UsbmuxOperationError::Plist(value)
    }
}

impl vstd::std_specs::convert::FromSpecImpl<::plist::Error> for UsbmuxOperationError {
    open spec fn obeys_from_spec() -> bool {
        true
    }

    open spec fn from_spec(v: ::plist::Error) -> UsbmuxOperationError {
        UsbmuxOperationError::Plist(v)
    }
}

impl From<::serde_json::Error> for UsbmuxOperationError {
    fn from(value: ::serde_json::Error) -> (r: UsbmuxOperationError) {
        UsbmuxOperationError::JsonError(value)
    }
}

impl vstd::std_specs::convert::FromSpecImpl<::serde_json::Error> for UsbmuxOperationError {
    open spec fn obeys_from_spec() -> bool {
        true
    }

    open spec fn from_spec(v: ::serde_json::Error) -> UsbmuxOperationError {
        UsbmuxOperationError::JsonError(v)
    }
}

impl From<SslError> for UsbmuxOperationError {
    fn from(value: SslError) -> (r: UsbmuxOperationError) {
        UsbmuxOperationError::SslError(value)
    }
}

impl vstd::std_specs::convert::FromSpecImpl<SslError> for UsbmuxOperationError {
    open spec fn obeys_from_spec() -> bool {
        true
    }

    open spec fn from_spec(v: SslError) -> UsbmuxOperationError {
        UsbmuxOperationError::SslError(v)
    }
}

impl From<std::io::Error> for UsbmuxSockError {
    fn from(value: std::io::Error) -> (r: UsbmuxSockError) {
        UsbmuxSockError::Io(value)
    }
}

impl vstd::std_specs::convert::FromSpecImpl<std::io::Error> for UsbmuxSockError {
    open spec fn obeys_from_spec() -> bool {
        true
    }

    open spec fn from_spec(v: std::io::Error) -> UsbmuxSockError {
        UsbmuxSockError::Io(v)
    }
}

impl From<::rustls::Error> for SslError {
    fn from(value: ::rustls::Error) -> (r: SslError) {
        SslError::Ssl(value)
    }
}

impl vstd::std_specs::convert::FromSpecImpl<::rustls::Error> for SslError {
    open spec fn obeys_from_spec() -> bool {
        true
    }

    open spec fn from_spec(v: ::rustls::Error) -> SslError {
        SslError::Ssl(v)
    }
}

impl From<std::io::Error> for SslError {
    fn from(value: std::io::Error) -> (r: SslError) {
        SslError::Io(value)
    }
}

impl vstd::std_specs::convert::FromSpecImpl<std::io::Error> for SslError {
    open spec fn obeys_from_spec() -> bool {
        true
    }

    open spec fn from_spec(v: std::io::Error) -> SslError {
        SslError::Io(v)
    }
}

impl From<UsbmuxSockError> for SslError {
    fn from(value: UsbmuxSockError) -> (r: SslError) {
        SslError::UsbmuxSockError(value)
    }
}

impl vstd::std_specs::convert::FromSpecImpl<UsbmuxSockError> for SslError {
    open spec fn obeys_from_spec() -> bool {
        true
    }

    open spec fn from_spec(v: UsbmuxSockError) -> SslError {
        SslError::UsbmuxSockError(v)
    }
}

impl From<::rustls_pki_types::pem::Error> for SslError {
    fn from(value: ::rustls_pki_types::pem::Error) -> (r: SslError) {
        SslError::PemError(value)
    }
}

impl vstd::std_specs::convert::FromSpecImpl<::rustls_pki_types::pem::Error> for SslError {
    open spec fn obeys_from_spec() -> bool {
        true
    }

    open spec fn from_spec(v: ::rustls_pki_types::pem::Error) -> SslError {
        SslError::PemError(v)
    }
}

impl From<::rustls_pki_types::InvalidDnsNameError> for SslError {
    fn from(value: ::rustls_pki_types::InvalidDnsNameError) -> (r: SslError) {
        SslError::SslSockConfigError(value)
    }
}

impl vstd::std_specs::convert::FromSpecImpl<::rustls_pki_types::InvalidDnsNameError> for SslError {
    open spec fn obeys_from_spec() -> bool {
        true
    }

    open spec fn from_spec(v: ::rustls_pki_types::InvalidDnsNameError) -> SslError {
        SslError::SslSockConfigError(v)
    }
}

} // verus!
