//! The errors of the rendering core and of a session.

use vstd::prelude::*;

verus! {

/// `std::io::Error`, the failure of a device, carried through as it comes:
/// nothing is claimed of what such a value holds.
#[verifier::external_type_specification]
#[verifier::external_body]
pub struct ExIoError(std::io::Error);

/// Why an operation of the rendering core failed.
#[derive(Debug)]
pub enum BError {
    /// The device could not be written to, read from or switched to another
    /// mode.
    Internal(std::io::Error),
    /// There is no backend to activate.
    NoBackend,
    /// A region reaches beyond the grid.
    OutOfBounds,
    /// The content handed in for a region holds another number of cells than
    /// the region covers.
    ContentLength,
}

impl From<std::io::Error> for BError {
    fn from(err: std::io::Error) -> (e: BError) {
        BError::Internal(err)
    }
}

impl vstd::std_specs::convert::FromSpecImpl<std::io::Error> for BError {
    open spec fn obeys_from_spec() -> bool {
        true
    }

    open spec fn from_spec(err: std::io::Error) -> BError {
        BError::Internal(err)
    }
}

/// What a fallible operation of the rendering core returns.
pub type BResult<T> = Result<T, BError>;

/// Why an operation of a session failed.
#[derive(Debug)]
pub enum UError {
    /// The backend failed.
    Backend(BError),
}

impl From<BError> for UError {
    fn from(err: BError) -> (e: UError) {
        UError::Backend(err)
    }
}

impl vstd::std_specs::convert::FromSpecImpl<BError> for UError {
    open spec fn obeys_from_spec() -> bool {
        true
    }

    open spec fn from_spec(err: BError) -> UError {
        UError::Backend(err)
    }
}

/// What a fallible operation of a session returns.
pub type UResult<T> = Result<T, UError>;

} // verus!
