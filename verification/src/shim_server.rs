//! The HTTP front of a primary: `broadcast_tx` hands a transaction to the
//! primary's mempool (a worker), `rpc_query` hands a query to the engine.
use vstd::prelude::*;
use crate::text::{owned, utf8_bytes, utf8_of};

verus! {

/// A transaction to broadcast, as the JSON text of a transaction request.
pub struct BroadcastTxQuery {
    pub tx: String,
}

/// What `format!("{:?}", s)` writes for the string `s`: std's `Debug` form of a
/// string, quoted and escaped.
pub uninterp spec fn debug_str(s: Seq<char>) -> Seq<char>;

/// std's `Debug` form of the string `s` (`format!("{:?}", s)`), stated only by the
/// name `debug_str`.
#[verifier::external_body]
fn debug_text(s: &str) -> (r: String)
    ensures
        r@ == debug_str(s@),
{
    format!("{:?}", s)
}

/// Appends `s` to `text`.
fn append(text: &mut String, s: &str)
    ensures
        final(text)@ == old(text)@ + s@,
{
    text.append(s);
}

impl BroadcastTxQuery {
    /// The `Debug` form of the query, as `#[derive(Debug)]` writes it for a struct
    /// with one field `tx`.
    pub open spec fn debug_form(&self) -> Seq<char> {
        "BroadcastTxQuery { tx: "@ + debug_str(self.tx@) + " }"@
    }

    /// The `Debug` form of the query (see `debug_form`).
    pub fn debug(&self) -> (r: String)
        ensures
            r@ == self.debug_form(),
    {
        let mut r = owned("BroadcastTxQuery { tx: ");
        let quoted = debug_text(self.tx.as_str());
        append(&mut r, quoted.as_str());
        append(&mut r, " }");
        r
    }

    /// The frame sent to the mempool for this query: the bytes of its transaction.
    pub fn frame(&self) -> (f: Vec<u8>)
        ensures
            f@ == utf8_of(self.tx@),
    {
        utf8_bytes(self.tx.as_str())
    }
}

/// The HTTP front of a primary. The channel on which it hands queries to the
/// engine is kept by the program around it.
pub struct RpcShim {
    /// The address of the mempool (a worker's transaction socket), as text.
    pub mempool_address: String,
}

impl RpcShim {
    pub fn new(mempool_address: String) -> (shim: RpcShim)
        ensures
            shim.mempool_address == mempool_address,
    {
        RpcShim { mempool_address }
    }

    /// The message with which broadcasting gives up when the mempool cannot be reached.
    pub fn connect_failure(&self) -> (m: String)
        ensures
            m@ == "ROUTE_BROADCAST_TX failed to connect to "@ + self.mempool_address@,
    {
        let mut m = owned("ROUTE_BROADCAST_TX failed to connect to ");
        append(&mut m, self.mempool_address.as_str());
        m
    }

    /// The answer to a `broadcast_tx` query once its frame was sent (`Ok`) or
    /// sending failed (the transport's message).
    pub fn broadcast_reply(&self, req: &BroadcastTxQuery, sent: Result<(), String>) -> (reply: String)
        ensures
            match sent {
                Ok(()) => reply@ == "broadcast_tx: "@ + req.debug_form(),
                Err(e) => reply@ == "ERROR IN: broadcast_tx: "@ + req.debug_form() + ". Err: "@ + e@,
            },
    {
        match sent {
            Ok(()) => {
                let mut reply = owned("broadcast_tx: ");
                let d = req.debug();
                append(&mut reply, d.as_str());
                reply
            },
            Err(e) => {
                let mut reply = owned("ERROR IN: broadcast_tx: ");
                let d = req.debug();
                append(&mut reply, d.as_str());
                append(&mut reply, ". Err: ");
                append(&mut reply, e.as_str());
                reply
            },
        }
    }
}

} // verus!
