//! The message in which a worker stores a batch of transactions.
use vstd::prelude::*;
use crate::error::EngineError;

verus! {

/// One transaction as a client submitted it: the bytes of a JSON transaction request.
pub type Transaction = Vec<u8>;

/// The transactions that a worker sealed together.
pub type Batch = Vec<Transaction>;

/// What a worker writes into its store for each batch.
pub enum WorkerMessage {
    Batch(Batch),
}

/// The number that `bytes` encode, least significant byte first.
pub open spec fn le_number(bytes: Seq<u8>) -> nat
    decreases bytes.len(),
{
    if bytes.len() == 0 {
        0
    } else {
        bytes[0] as nat + 256 * le_number(bytes.drop_first())
    }
}

/// `count` byte strings laid out one after another from the start of `bytes`, each
/// as its length (a `u64`, eight bytes least significant first) followed by its
/// bytes; `None` where `bytes` end before the last one does. What follows the last
/// string is not read.
pub open spec fn length_prefixed(bytes: Seq<u8>, count: nat) -> Option<Seq<Seq<u8>>>
    decreases count,
{
    if count == 0 {
        Some(seq![])
    } else if bytes.len() < 8 {
        None
    } else {
        let len: int = le_number(bytes.take(8)) as int;
        if bytes.len() < 8 + len {
            None
        } else {
            match length_prefixed(bytes.skip(8 + len), (count - 1) as nat) {
                Some(rest) => Some(seq![bytes.subrange(8, 8 + len)] + rest),
                None => None,
            }
        }
    }
}

/// What `bincode::deserialize` reads from `bytes` as a pair of a `u32` and a list of
/// byte strings, or `None` where it fails. Its format, as bincode documents it:
/// the fields of a tuple one after another, a `u32` as four bytes and a length as
/// a `u64` in eight, least significant byte first, a list as its length followed
/// by its items; bytes after the value are allowed. Bincode writes an enum as the
/// variant's index (a `u32`) followed by the variant's content, so this pair is
/// what a `WorkerMessage` is decoded from: index 0 is `WorkerMessage::Batch`.
pub open spec fn bincode_tagged_batch(bytes: Seq<u8>) -> Option<(u32, Seq<Seq<u8>>)> {
    if bytes.len() < 12 {
        None
    } else {
        match length_prefixed(bytes.skip(12), le_number(bytes.subrange(4, 12))) {
            Some(txs) => Some((le_number(bytes.take(4)) as u32, txs)),
            None => None,
        }
    }
}

/// Reads `bytes` with `bincode::deserialize` (fixed-width integers, little-endian,
/// trailing bytes allowed, no size limit) as a variant index and a list of byte
/// strings. The contract claims that the result is the layout of
/// `bincode_tagged_batch`: what bincode's readme documents, and what its decoder
/// reads (`de/mod.rs`: `deserialize_seq`, `read_vec`; `config/int.rs`: fixed-width
/// integers). Lengths are never allocated up front beyond serde's cautious bound,
/// so a length that runs past the end fails rather than aborts.
#[verifier::external_body]
fn deserialize_tagged_batch(bytes: &[u8]) -> (r: Option<(u32, Vec<Vec<u8>>)>)
    ensures
        r.deep_view() == bincode_tagged_batch(bytes@),
{
    bincode::deserialize::<(u32, Vec<Vec<u8>>)>(bytes).ok()
}

/// The transactions of the worker message stored as `bytes`, or `None` where the
/// bytes are not a worker's batch message.
pub open spec fn decoded_batch(bytes: Seq<u8>) -> Option<Seq<Seq<u8>>> {
    match bincode_tagged_batch(bytes) {
        Some((tag, txs)) => if tag == 0 {
            Some(txs)
        } else {
            None
        },
        None => None,
    }
}

impl WorkerMessage {
    /// The transactions of the message, by their bytes.
    pub open spec fn transactions(&self) -> Seq<Seq<u8>> {
        match self {
            WorkerMessage::Batch(b) => b.deep_view(),
        }
    }
}

/// A stored message is a batch exactly when bincode reads it with variant index 0,
/// and then its transactions are the listed byte strings, whatever they hold
/// (empty, repeated, or not JSON).
pub proof fn law_batch_messages_decode(bytes: Seq<u8>)
    ensures
        decoded_batch(bytes) is Some <==> (bincode_tagged_batch(bytes) matches Some((tag, _)) && tag == 0),
        bincode_tagged_batch(bytes) matches Some((tag, txs)) ==> (tag == 0 ==> decoded_batch(bytes) == Some(txs)),
{
}

/// Decodes the worker message stored as `bytes`.
pub fn decode_worker_message(bytes: &[u8]) -> (m: Option<WorkerMessage>)
    ensures
        m is Some <==> decoded_batch(bytes@) is Some,
        m matches Some(msg) ==> decoded_batch(bytes@) == Some(msg.transactions()),
        bincode_tagged_batch(bytes@) matches Some((tag, txs)) ==> (tag == 0 ==> (m matches Some(msg)
            && msg.transactions() == txs)),
        !(bincode_tagged_batch(bytes@) matches Some((tag, _)) && tag == 0) ==> m is None,
{
    match deserialize_tagged_batch(bytes) {
        Some((tag, txs)) => {
            if tag == 0 {
                Some(WorkerMessage::Batch(txs))
            } else {
                None
            }
        },
        None => None,
    }
}

/// The transactions of the batch stored as `bytes`; a stored value that is not a
/// batch message is refused as `UnrecognizedMessageFormat`.
pub fn decode_batch(bytes: &[u8]) -> (r: Result<Batch, EngineError>)
    ensures
        match decoded_batch(bytes@) {
            Some(txs) => r matches Ok(b) && b.deep_view() == txs,
            None => r matches Err(EngineError::UnrecognizedMessageFormat),
        },
{
    match decode_worker_message(bytes) {
        Some(WorkerMessage::Batch(b)) => Ok(b),
        None => Err(EngineError::UnrecognizedMessageFormat),
    }
}

} // verus!
