//! Errors of the DTServiceHub connection.

use vstd::prelude::*;

verus! {

/// A failure on the DTServiceHub connection.
#[derive(Debug)]
pub enum DtServiceError {
    Io(std::io::Error),
}

impl From<std::io::Error> for DtServiceError {
    fn from(value: std::io::Error) -> (r: DtServiceError) {
        DtServiceError::Io(value)
    }
}

impl vstd::std_specs::convert::FromSpecImpl<std::io::Error> for DtServiceError {
    open spec fn obeys_from_spec() -> bool {
        true
    }

    open spec fn from_spec(v: std::io::Error) -> DtServiceError {
        DtServiceError::Io(v)
    }
}

} // verus!
