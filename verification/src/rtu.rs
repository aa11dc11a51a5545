//! Bus-transport client: correlates replies by the address of the single
//! device being spoken to on the shared bus.

use vstd::prelude::*;
use crate::error::Error;
use crate::frame::{InnerResult, Pdu, Request, Response, RtuAdu};

verus! {

/// Bus-transport client state: the fixed address of the target device.
/// The connection handle lives below this layer; no state of this
/// client mutates across calls.
pub struct Client {
    pub address: u8,
}

/// Says that `adu` is an envelope this client sends: it carries the
/// client's fixed device address. `start_call` ensures it of every
/// envelope it builds.
pub open spec fn addressed_by(c: Client, adu: RtuAdu) -> bool {
    adu.address == c.address
}

/// Idempotent addressing: any two envelopes sent by the same bus client
/// carry the same device address, so consecutive calls address the same
/// device, and `finish_call` validates each reply against that address.
pub proof fn lemma_idempotent_addressing(c: Client, first: RtuAdu, second: RtuAdu)
    requires
        addressed_by(c, first),
        addressed_by(c, second),
    ensures
        first.address == second.address,
{
}

impl Client {
    /// A client bound to the device at `address`.
    pub fn new(address: u8) -> (c: Client)
        ensures
            c.address == address,
    {
        Client { address }
    }

    /// Builds the outgoing envelope for `req`: the client's fixed
    /// address and the request itself, unmodified.
    pub fn start_call(&self, req: Request) -> (adu: RtuAdu)
        ensures
            adu.address == self.address,
            adu.pdu == Pdu::Request(req),
            addressed_by(*self, adu),
    {
        RtuAdu { address: self.address, pdu: Pdu::Request(req) }
    }

    /// Validates a reply envelope against the address that was spoken to
    /// and unwraps the inner result.
    ///
    /// The correlation check comes strictly first: a reply from a
    /// different address is rejected before its payload is interpreted
    /// at all. A matching reply whose payload is not the inbound variant
    /// is a contract violation by the transport layer, excluded by
    /// precondition.
    pub fn finish_call(address: u8, reply: RtuAdu) -> (r: Result<Response, Error>)
        requires
            reply.address == address ==> reply.pdu is Reply,
        ensures
            reply.address != address ==> r == Err::<Response, Error>(Error::InvalidServerId),
            reply.address == address ==> (match reply.pdu {
                Pdu::Reply(InnerResult::Response(resp)) => r == Ok::<Response, Error>(resp),
                Pdu::Reply(InnerResult::Exception(code)) => r == Err::<Response, Error>(
                    Error::Exception(code),
                ),
                Pdu::Request(_) => false,
            }),
    {
        if reply.address != address {
            return Err(Error::InvalidServerId);
        }
        match reply.pdu {
            Pdu::Reply(InnerResult::Response(resp)) => Ok(resp),
            Pdu::Reply(InnerResult::Exception(code)) => Err(Error::Exception(code)),
            Pdu::Request(_) => vstd::pervasive::unreached(),
        }
    }
}

} // verus!
