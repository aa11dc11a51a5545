//! Envelope and payload types shared by both transports.

use vstd::prelude::*;

verus! {

/// An application-level command: a function code and its parameters.
/// This layer passes it through unmodified.
#[derive(Clone, Debug, PartialEq, Eq)]
pub struct Request {
    pub function: u8,
    pub data: Vec<u8>,
}

/// An application-level successful result, passed through unmodified.
#[derive(Clone, Debug, PartialEq, Eq)]
pub struct Response {
    pub function: u8,
    pub data: Vec<u8>,
}

/// The decoded reply payload: either a successful response or an
/// exception code reported by the remote device.
#[derive(Clone, Debug, PartialEq, Eq)]
pub enum InnerResult {
    Response(Response),
    Exception(u8),
}

/// The application payload of an envelope. This layer only ever sends
/// the `Request` variant and only ever receives the `Reply` variant.
#[derive(Clone, Debug, PartialEq, Eq)]
pub enum Pdu {
    Request(Request),
    Reply(InnerResult),
}

/// Correlation header of a stream-transport envelope.
#[derive(Clone, Debug, PartialEq, Eq)]
pub struct TcpHeader {
    pub transaction_id: u16,
    pub unit_id: u8,
}

/// Stream-transport envelope: header plus payload.
#[derive(Clone, Debug, PartialEq, Eq)]
pub struct TcpAdu {
    pub header: TcpHeader,
    pub pdu: Pdu,
}

/// Bus-transport envelope: device address plus payload.
#[derive(Clone, Debug, PartialEq, Eq)]
pub struct RtuAdu {
    pub address: u8,
    pub pdu: Pdu,
}

} // verus!
