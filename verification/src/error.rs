//! Errors returned by the driver.

use vstd::prelude::*;

verus! {

/// Every fallible operation of the driver reports one of these.
#[derive(Clone, Copy, PartialEq, Eq, Structural, Debug)]
pub enum Error {
    /// A byte write to the device failed; the operation aborted at that
    /// point and nothing was retried.
    TransportFailure,
    /// A pixel or cursor coordinate lay outside the valid range for the
    /// active geometry; rejected before any device write.
    InvalidCoordinate,
    /// An operation that needs cursor state ran before text mode was
    /// entered.
    CursorNotInitialized,
}

} // verus!
