//! Transactions as the application receives them: JSON transaction requests.
use vstd::prelude::*;
use ethers_core::types::TransactionRequest;

verus! {

/// The value of a 256-bit quantity held as four 64-bit limbs, least significant
/// first (the representation of ethers' `U256`).
pub open spec fn quantity_value(q: [u64; 4]) -> nat {
    (q[0] as nat) + (q[1] as nat) * 0x1_0000_0000_0000_0000 + (q[2] as nat)
        * 0x1_0000_0000_0000_0000_0000_0000_0000_0000 + (q[3] as nat)
        * 0x1_0000_0000_0000_0000_0000_0000_0000_0000_0000_0000_0000_0000
}

/// A transaction request as plain values: addresses as their 20 bytes,
/// quantities as the limbs of a `U256`.
pub struct TxRequest {
    pub from: Option<[u8; 20]>,
    pub to: Option<[u8; 20]>,
    pub gas: Option<[u64; 4]>,
    pub gas_price: Option<[u64; 4]>,
    pub value: Option<[u64; 4]>,
    pub data: Option<Vec<u8>>,
    pub nonce: Option<[u64; 4]>,
    pub chain_id: Option<u64>,
}

/// A transaction request with its addresses and data by their bytes and its
/// quantities by their values.
pub struct TxRequestView {
    pub from: Option<Seq<u8>>,
    pub to: Option<Seq<u8>>,
    pub gas: Option<nat>,
    pub gas_price: Option<nat>,
    pub value: Option<nat>,
    pub data: Option<Seq<u8>>,
    pub nonce: Option<nat>,
    pub chain_id: Option<nat>,
}

/// An optional quantity by its value.
pub open spec fn quantity_view(q: Option<[u64; 4]>) -> Option<nat> {
    match q {
        Some(v) => Some(quantity_value(v)),
        None => None,
    }
}

/// An address taken by its bytes.
pub open spec fn address_view(a: Option<[u8; 20]>) -> Option<Seq<u8>> {
    match a {
        Some(bytes) => Some(bytes@),
        None => None,
    }
}

impl View for TxRequest {
    type V = TxRequestView;

    open spec fn view(&self) -> TxRequestView {
        TxRequestView {
            from: address_view(self.from),
            to: address_view(self.to),
            gas: quantity_view(self.gas),
            gas_price: quantity_view(self.gas_price),
            value: quantity_view(self.value),
            data: match self.data {
                Some(d) => Some(d@),
                None => None,
            },
            nonce: quantity_view(self.nonce),
            chain_id: match self.chain_id {
                Some(c) => Some(c as nat),
                None => None,
            },
        }
    }
}

/// What decoding `bytes` as a JSON `TransactionRequest` with `serde_json::from_slice`
/// gives, as plain values, or the decoder's message (its error's `Display`) where
/// decoding fails. A recipient that is not an address (an ENS name) reads as no
/// recipient; ethers decodes every recipient as an address, so it does not occur.
pub uninterp spec fn json_transaction_request(bytes: Seq<u8>) -> Result<TxRequestView, Seq<char>>;

/// Whether `bytes` decode as a transaction request (`None` where not), and its
/// recipient where they do: `Some(Some(a))` for the address `a`, `Some(None)` where
/// it has none.
pub open spec fn json_request_recipient(bytes: Seq<u8>) -> Option<Option<Seq<u8>>> {
    match json_transaction_request(bytes) {
        Ok(r) => Some(r.to),
        Err(_) => None,
    }
}

/// `bytes` decode as a JSON transaction request, to exactly `request`.
pub open spec fn decodes_to(bytes: Seq<u8>, request: TxRequestView) -> bool {
    json_transaction_request(bytes) == Ok::<TxRequestView, Seq<char>>(request)
}

/// A decoding outcome taken as plain values: the request's view, or the message.
pub open spec fn decoding_view(r: Result<TxRequest, String>) -> Result<TxRequestView, Seq<char>> {
    match r {
        Ok(m) => Ok(m@),
        Err(e) => Err(e@),
    }
}

/// Decodes `bytes` as a JSON `TransactionRequest` (`serde_json::from_slice`) and
/// takes its fields as plain values, or the decoder's message. The contract ties
/// both to the bytes by the name `json_transaction_request`.
#[verifier::external_body]
fn decode_transaction_request(bytes: &[u8]) -> (r: Result<TxRequest, String>)
    ensures
        json_transaction_request(bytes@) == decoding_view(r),
{
    match serde_json::from_slice::<TransactionRequest>(bytes) {
        Ok(tx) => Ok(TxRequest {
            from: tx.from.map(|a| a.0),
            to: tx.to.as_ref().and_then(|t| t.as_address()).map(|a| a.0),
            gas: tx.gas.map(|q| q.0),
            gas_price: tx.gas_price.map(|q| q.0),
            value: tx.value.map(|q| q.0),
            data: tx.data.map(|d| d.to_vec()),
            nonce: tx.nonce.map(|q| q.0),
            chain_id: tx.chain_id.map(|c| c.0[0]),
        }),
        Err(e) => Err(e.to_string()),
    }
}

/// A transaction ready to be sent to the application: its bytes, the request they
/// decode to, and the address it goes to.
pub struct PreparedTx {
    pub raw: Vec<u8>,
    pub request: TxRequest,
    pub recipient: [u8; 20],
}

/// What becomes of one transaction of a batch.
pub enum TxPreparation {
    /// It decodes and goes to an address: it is sent.
    Ready(PreparedTx),
    /// It does not decode; the decoder's message.
    Undecodable(String),
    /// It decodes, but its recipient is missing or not an address.
    NotAnAddress,
}

impl TxPreparation {
    /// This preparation is what the transaction `bytes` calls for.
    pub open spec fn fits(&self, bytes: Seq<u8>) -> bool {
        match json_transaction_request(bytes) {
            Err(m) => self matches TxPreparation::Undecodable(x) && x@ == m,
            Ok(r) => match r.to {
                None => self is NotAnAddress,
                Some(to) => self matches TxPreparation::Ready(p) && p.raw@ == bytes
                    && p.recipient@ == to && r == p.request@,
            },
        }
    }
}

/// Decodes the transaction `tx` and checks that it goes to an address.
pub fn prepare_transaction(tx: Vec<u8>) -> (p: TxPreparation)
    ensures
        p.fits(tx@),
{
    match decode_transaction_request(tx.as_slice()) {
        Ok(request) => match request.to {
            Some(recipient) => TxPreparation::Ready(PreparedTx { raw: tx, request, recipient }),
            None => TxPreparation::NotAnAddress,
        },
        Err(msg) => TxPreparation::Undecodable(msg),
    }
}

} // verus!
