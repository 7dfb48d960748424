//! Errors of the top-level device flows.

use vstd::prelude::*;
use crate::dtservice::errors::DtServiceError;
use crate::usbmux::errors::UsbmuxOperationError;
use crate::xpc::errors::XpcError;

verus! {

/// A failure of `connect`, `reveal_developer_mode` or `simulate_location`.
#[derive(Debug)]
pub enum DeviceError {
    UsbMuxOperationError(UsbmuxOperationError),
    /// A step was taken before the one it depends on.
    Error(&'static str),
    XpcError(XpcError),
    DtServiceError(DtServiceError),
}

impl From<UsbmuxOperationError> for DeviceError {
    fn from(value: UsbmuxOperationError) -> (r: DeviceError) {
        DeviceError::UsbMuxOperationError(value)
    }
}

impl vstd::std_specs::convert::FromSpecImpl<UsbmuxOperationError> for DeviceError {
    open spec fn obeys_from_spec() -> bool {
        true
    }

    open spec fn from_spec(v: UsbmuxOperationError) -> DeviceError {
        DeviceError::UsbMuxOperationError(v)
    }
}

impl From<XpcError> for DeviceError {
    fn from(value: XpcError) -> (r: DeviceError) {
        DeviceError::XpcError(value)
    }
}

impl vstd::std_specs::convert::FromSpecImpl<XpcError> for DeviceError {
    open spec fn obeys_from_spec() -> bool {
        true
    }

    open spec fn from_spec(v: XpcError) -> DeviceError {
        DeviceError::XpcError(v)
    }
}

impl From<DtServiceError> for DeviceError {
    fn from(value: DtServiceError) -> (r: DeviceError) {
        DeviceError::DtServiceError(value)
    }
}

impl vstd::std_specs::convert::FromSpecImpl<DtServiceError> for DeviceError {
    open spec fn obeys_from_spec() -> bool {
        true
    }

    open spec fn from_spec(v: DtServiceError) -> DeviceError {
        DeviceError::DtServiceError(v)
    }
}

} // verus!
