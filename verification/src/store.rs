//! Where a worker keeps its batches, and what a read of its store yields.
use vstd::prelude::*;
use crate::text::{decimal_text, owned, push_char, push_decimal};
use crate::error::{EngineError, EngineErrorView};

verus! {

/// The path of the store of worker `worker_id` of the primary whose store is at
/// `store_path`: the primary's path, a hyphen, and the worker's number
/// (primary `db-0` has workers `db-0-0`, `db-0-1`, ...).
pub open spec fn worker_store_path(store_path: Seq<char>, worker_id: nat) -> Seq<char> {
    store_path + seq!['-'] + decimal_text(worker_id)
}

/// Builds the path of the store of worker `worker_id` (see `worker_store_path`).
pub fn worker_db(store_path: &str, worker_id: u32) -> (path: String)
    ensures
        path@ == worker_store_path(store_path@, worker_id as nat),
{
    let mut path = owned(store_path);
    push_char(&mut path, '-');
    push_decimal(&mut path, worker_id as u64);
    proof {
        assert(path@ =~= worker_store_path(store_path@, worker_id as nat));
    }
    path
}

} // verus!

verus! {

/// One entry of a certificate's payload: the digest of a batch and the worker that holds it.
pub struct PayloadEntry {
    pub digest: Vec<u8>,
    pub worker_id: u32,
}

/// Where a batch is read from: the store of its worker, and the key (the batch's digest).
pub struct BatchLocation {
    pub path: String,
    pub key: Vec<u8>,
}

/// What reading a key from a worker's store gave.
pub enum StoreRead {
    /// The value stored under the key.
    Found(Vec<u8>),
    /// The store holds nothing under the key.
    Missing,
    /// Opening the store or reading it failed; the store's message.
    Failed(String),
}

/// Where each batch of `payload` is read from, in the payload's order: the store of
/// the batch's worker, under the batch's digest.
pub fn batch_locations(store_path: &str, payload: &Vec<PayloadEntry>) -> (locs: Vec<BatchLocation>)
    ensures
        locs.len() == payload.len(),
        forall|i: int|
            0 <= i < payload.len() ==> {
                &&& (#[trigger] locs[i]).path@ == worker_store_path(
                    store_path@,
                    payload[i].worker_id as nat,
                )
                &&& locs[i].key@ == payload[i].digest@
            },
{
    let mut locs: Vec<BatchLocation> = Vec::new();
    for i in 0..payload.len()
        invariant
            locs.len() == i,
            forall|j: int|
                0 <= j < i ==> {
                    &&& (#[trigger] locs[j]).path@ == worker_store_path(
                        store_path@,
                        payload[j].worker_id as nat,
                    )
                    &&& locs[j].key@ == payload[j].digest@
                },
    {
        let entry = &payload[i];
        let path = worker_db(store_path, entry.worker_id);
        let key = crate::error::copy_bytes(&entry.digest);
        locs.push(BatchLocation { path, key });
    }
    locs
}

/// `r` is the batch that the read `read` of `location` gives: the bytes where the
/// store held them, `DigestNotFound` with the key where it held nothing, and the
/// store's message where the read failed.
pub open spec fn read_yields(
    location: BatchLocation,
    read: StoreRead,
    r: Result<Vec<u8>, EngineError>,
) -> bool {
    match read {
        StoreRead::Found(bytes) => r matches Ok(b) && b@ == bytes@,
        StoreRead::Missing => r matches Err(e) && e@ == EngineErrorView::DigestNotFound(location.key@),
        StoreRead::Failed(m) => r matches Err(e) && e@ == EngineErrorView::Store(m@),
    }
}

/// The batch that a read of `location` gave (see `read_yields`).
pub fn batch_from_read(location: &BatchLocation, read: StoreRead) -> (r: Result<
    Vec<u8>,
    EngineError,
>)
    ensures
        read_yields(*location, read, r),
{
    match read {
        StoreRead::Found(bytes) => Ok(bytes),
        StoreRead::Missing => Err(EngineError::DigestNotFound(crate::error::copy_bytes(&location.key))),
        StoreRead::Failed(m) => Err(EngineError::Store(m)),
    }
}

} // verus!
