//! The engine of a primary that drives an application over ABCI: each certificate
//! is a block, run through BeginBlock, the delivery of its transactions (each
//! receipt awaited), EndBlock and Commit; queries are forwarded and answered with
//! the application's reply.
use vstd::prelude::*;
use crate::delivery::{plan_delivery, DeliveryPlan};
use crate::error::EngineError;
use crate::rpc::{abci_reply_text, json_string};
use crate::text::utf8_of;
use crate::run::{DeliveryRun, Flavor};
use crate::store::{batch_from_read, batch_locations, worker_store_path, BatchLocation, PayloadEntry, StoreRead};
use crate::text::owned;
use crate::shim_engine::app_url_of;

verus! {


/// The state of the engine that the decisions read: where the application is,
/// where the primary's store is, and the height of the last block. The channels
/// and clients are kept by the program around it.
pub struct Engine {
    /// The address of the application, as text (`host:port`).
    pub app_address: String,
    /// The path of the primary's store; its workers' stores are beside it.
    pub store_path: String,
    /// The height of the last block, initialized to the application's latest block.
    pub last_block_height: i64,
}

impl Engine {
    pub fn new(app_address: String, store_path: &str, last_block_height: i64) -> (e: Engine)
        ensures
            e.app_address == app_address,
            e.store_path@ == store_path@,
            e.last_block_height == last_block_height,
    {
        Engine { app_address, store_path: owned(store_path), last_block_height }
    }

    /// The URL at which the engine reaches the application.
    pub fn app_url(&self) -> (url: String)
        ensures
            url@ == app_url_of(self.app_address@),
    {
        let mut url = owned("http://");
        url.append(self.app_address.as_str());
        url
    }

    /// The path of the store of worker `id` of this primary.
    pub fn worker_db(&self, id: u32) -> (path: String)
        ensures
            path@ == worker_store_path(self.store_path@, id as nat),
    {
        crate::store::worker_db(self.store_path.as_str(), id)
    }

    /// Where each batch of a certificate's payload is read from, in the payload's order.
    pub fn batch_locations(&self, payload: &Vec<PayloadEntry>) -> (locs: Vec<BatchLocation>)
        ensures
            locs.len() == payload.len(),
            forall|i: int|
                0 <= i < payload.len() ==> {
                    &&& (#[trigger] locs[i]).path@ == worker_store_path(
                        self.store_path@,
                        payload[i].worker_id as nat,
                    )
                    &&& locs[i].key@ == payload[i].digest@
                },
    {
        batch_locations(self.store_path.as_str(), payload)
    }

    /// The batch that reading `location` gave (see `store::batch_from_read`).
    pub fn reconstruct_batch(&self, location: &BatchLocation, read: StoreRead) -> (r: Result<
        Vec<u8>,
        EngineError,
    >)
        ensures
            crate::store::read_yields(*location, read, r),
    {
        batch_from_read(location, read)
    }

    /// Begins handling a certificate whose batches read as `batches`: the block
    /// height is advanced to the proposed one, and the certificate is run through
    /// BeginBlock at that height, the delivery of each of its transactions (each
    /// receipt awaited), EndBlock and Commit.
    pub fn handle_cert(&mut self, batches: &Vec<Result<Vec<u8>, EngineError>>) -> (run: DeliveryRun)
        requires
            old(self).last_block_height < i64::MAX,
        ensures
            final(self).last_block_height == old(self).last_block_height + 1,
            final(self).app_address == old(self).app_address,
            final(self).store_path == old(self).store_path,
            run.plan().delivers(batches@),
            run.flavor() == (Flavor::BlockLifecycle { height: final(self).last_block_height }),
            run.sent() == 0,
            run.phase() is Ready,
    {
        let proposed_block_height = self.last_block_height + 1;
        self.last_block_height = proposed_block_height;
        let plan: DeliveryPlan = plan_delivery(batches);
        DeliveryRun::new(plan, Flavor::BlockLifecycle { height: proposed_block_height })
    }

    /// The answer to a query once the application replied (`Ok`) or forwarding it
    /// failed: the reply, or `error`, as a JSON string in UTF-8 bytes.
    pub fn handle_abci_query(&self, reply: Result<String, String>) -> (value: Vec<u8>)
        ensures
            value@ == utf8_of(json_string(abci_reply_text(reply))),
    {
        crate::rpc::abci_query_value(reply)
    }
}

} // verus!
