//! Client-side correlation layer for a Modbus-style request/response
//! protocol over two transports: a length-framed stream transport that
//! correlates replies by a 16-bit transaction identifier, and a shared
//! serial bus transport that correlates replies by the device address.
//!
//! The byte-level codec and the pipelined connection itself are external
//! collaborators; this crate builds the outgoing envelopes, tracks the
//! correlation state, and validates every reply against the request just
//! sent before unwrapping the application-level result.

pub mod error;
pub mod frame;
pub mod rtu;
pub mod tcp;
