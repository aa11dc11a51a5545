//! Stream-transport client: correlates replies by a 16-bit transaction
//! identifier that advances on every call and wraps around modulo 65536.

use vstd::prelude::*;
use vstd::arithmetic::div_mod::{lemma_add_mod_noop, lemma_mod_self_0, lemma_small_mod};
use crate::error::Error;
use crate::frame::{InnerResult, Pdu, Request, Response, TcpAdu, TcpHeader};

verus! {

/// The transaction identifier that follows `t`: one more, wrapping
/// around modulo 65536.
pub open spec fn wrap_inc(t: u16) -> u16 {
    ((t + 1) % 0x1_0000) as u16
}

/// The counter of a fresh client after `n` calls, each of which advances
/// it by `wrap_inc` as `start_call` ensures. Since every envelope carries
/// the counter as read before the call, this is also the transaction
/// identifier that call number `n`, counting from zero, sends.
pub open spec fn transaction_id_after(n: nat) -> u16
    decreases n,
{
    if n == 0 {
        0
    } else {
        wrap_inc(transaction_id_after((n - 1) as nat))
    }
}

/// After `n` calls on a fresh client the counter holds `n` modulo 65536.
pub proof fn lemma_transaction_id_after(n: nat)
    ensures
        transaction_id_after(n) == n % 0x1_0000,
    decreases n,
{
    if n > 0 {
        lemma_transaction_id_after((n - 1) as nat);
        lemma_small_mod(1, 0x1_0000);
        lemma_add_mod_noop((n - 1) as int, 1, 0x1_0000);
    }
}

/// Transaction uniqueness under wraparound: within any run of at most
/// 65536 sequential calls on one fresh client, the identifiers of any
/// two distinct calls differ.
pub proof fn lemma_transaction_ids_distinct(i: nat, j: nat)
    requires
        i < j,
        j < 0x1_0000,
    ensures
        transaction_id_after(i) != transaction_id_after(j),
{
    lemma_transaction_id_after(i);
    lemma_transaction_id_after(j);
    lemma_small_mod(i, 0x1_0000);
    lemma_small_mod(j, 0x1_0000);
}

/// After `n` calls on a fresh client, the next call reuses identifier
/// zero exactly when the counter has wrapped all the way around, that
/// is, exactly at `n == 65536`.
pub proof fn lemma_wraparound_reuse(n: nat)
    requires
        1 <= n <= 0x1_0000,
    ensures
        transaction_id_after(n) == 0 <==> n == 0x1_0000,
{
    lemma_transaction_id_after(n);
    if n < 0x1_0000 {
        lemma_small_mod(n, 0x1_0000);
    } else {
        lemma_mod_self_0(0x1_0000);
    }
}

/// Stream-transport client state: the counter that supplies the next
/// transaction identifier, and the unit identifier placed in every
/// header. The connection handle lives below this layer.
pub struct Client {
    pub transaction_id: u16,
    pub unit_id: u8,
}

impl Client {
    /// A freshly connected client: counter at zero, default unit id.
    pub fn new() -> (c: Client)
        ensures
            c.transaction_id == 0,
            c.unit_id == 1,
    {
        Client { transaction_id: 0, unit_id: 1 }
    }

    /// Builds the outgoing envelope for `req` and advances the counter.
    ///
    /// The envelope carries the counter value as read before the call,
    /// the client's unit id, and the request itself, unmodified; the
    /// counter then advances by one, wrapping modulo 65536.
    pub fn start_call(&mut self, req: Request) -> (adu: TcpAdu)
        ensures
            adu.header.transaction_id == old(self).transaction_id,
            adu.header.unit_id == old(self).unit_id,
            adu.pdu == Pdu::Request(req),
            final(self).transaction_id == wrap_inc(old(self).transaction_id),
            final(self).unit_id == old(self).unit_id,
    {
        let t_id = self.transaction_id;
        let header = TcpHeader { transaction_id: t_id, unit_id: self.unit_id };
        self.transaction_id = if t_id == 0xFFFF { 0 } else { t_id + 1 };
        TcpAdu { header, pdu: Pdu::Request(req) }
    }

    /// Validates a reply envelope against the transaction identifier of
    /// the request just sent and unwraps the inner result.
    ///
    /// The correlation check comes strictly first: a mismatched reply is
    /// rejected before its payload is interpreted at all. A matching
    /// reply whose payload is not the inbound variant is a contract
    /// violation by the transport layer, excluded by precondition.
    pub fn finish_call(transaction_id: u16, reply: TcpAdu) -> (r: Result<Response, Error>)
        requires
            reply.header.transaction_id == transaction_id ==> reply.pdu is Reply,
        ensures
            reply.header.transaction_id != transaction_id ==> r == Err::<Response, Error>(
                Error::InvalidTransactionId,
            ),
            reply.header.transaction_id == transaction_id ==> (match reply.pdu {
                Pdu::Reply(InnerResult::Response(resp)) => r == Ok::<Response, Error>(resp),
                Pdu::Reply(InnerResult::Exception(code)) => r == Err::<Response, Error>(
                    Error::Exception(code),
                ),
                Pdu::Request(_) => false,
            }),
    {
        if reply.header.transaction_id != transaction_id {
            return Err(Error::InvalidTransactionId);
        }
        match reply.pdu {
            Pdu::Reply(InnerResult::Response(resp)) => Ok(resp),
            Pdu::Reply(InnerResult::Exception(code)) => Err(Error::Exception(code)),
            Pdu::Request(_) => vstd::pervasive::unreached(),
        }
    }
}

} // verus!
