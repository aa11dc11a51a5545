//! Errors raised by the correlation layer itself.
//!
//! Transport I/O failures are not represented here: they arise below this
//! layer and propagate to the caller unchanged.

use vstd::prelude::*;

verus! {

/// A failure detected while validating or unwrapping a reply.
#[derive(Clone, Debug, PartialEq, Eq)]
pub enum Error {
    /// The reply's transaction identifier did not match the request just
    /// sent on a stream transport.
    InvalidTransactionId,
    /// The reply's device address did not match the device addressed on
    /// the bus transport.
    InvalidServerId,
    /// The remote device replied validly but signaled a protocol-level
    /// exception; the code is carried to the caller.
    Exception(u8),
}

} // verus!
