//! The engine of a primary that drives an EVM application over JSON-RPC: it
//! delivers each certificate's transactions as pending transactions, then has
//! the application mine them, and answers `eth_*` queries.
use vstd::prelude::*;
use crate::delivery::{plan_delivery, DeliveryPlan};
use crate::error::EngineError;
use crate::rpc::{EthQuery, QueryDecision};
use crate::run::{DeliveryRun, Flavor};
use crate::store::{batch_from_read, batch_locations, worker_store_path, BatchLocation, PayloadEntry, StoreRead};
use crate::text::owned;

verus! {

/// The URL of the application at `address`.
pub open spec fn app_url_of(address: Seq<char>) -> Seq<char> {
    "http://"@ + address
}

/// The state of the engine that the decisions read: where the application is and
/// where the primary's store is. The channels and HTTP clients are kept by the
/// program around it.
pub struct Engine {
    /// The address of the EVM application, as text (`host:port`).
    pub app_address: String,
    /// The path of the primary's store; its workers' stores are beside it.
    pub store_path: String,
}

impl Engine {
    pub fn new(app_address: String, store_path: &str) -> (e: Engine)
        ensures
            e.app_address == app_address,
            e.store_path@ == store_path@,
    {
        Engine { app_address, store_path: owned(store_path) }
    }

    /// The URL at which the engine reaches the application.
    pub fn app_url(&self) -> (url: String)
        ensures
            url@ == app_url_of(self.app_address@),
    {
        let mut url = owned("http://");
        url.append(self.app_address.as_str());
        url
    }

    /// The path of the store of worker `id` of this primary.
    pub fn worker_db(&self, id: u32) -> (path: String)
        ensures
            path@ == worker_store_path(self.store_path@, id as nat),
    {
        crate::store::worker_db(self.store_path.as_str(), id)
    }

    /// Where each batch of a certificate's payload is read from, in the payload's order.
    pub fn batch_locations(&self, payload: &Vec<PayloadEntry>) -> (locs: Vec<BatchLocation>)
        ensures
            locs.len() == payload.len(),
            forall|i: int|
                0 <= i < payload.len() ==> {
                    &&& (#[trigger] locs[i]).path@ == worker_store_path(
                        self.store_path@,
                        payload[i].worker_id as nat,
                    )
                    &&& locs[i].key@ == payload[i].digest@
                },
    {
        batch_locations(self.store_path.as_str(), payload)
    }

    /// The batch that reading `location` gave (see `store::batch_from_read`).
    pub fn reconstruct_batch(&self, location: &BatchLocation, read: StoreRead) -> (r: Result<
        Vec<u8>,
        EngineError,
    >)
        ensures
            crate::store::read_yields(*location, read, r),
    {
        batch_from_read(location, read)
    }

    /// Begins handling a certificate whose batches read as `batches`: its
    /// transactions are sent as pending transactions, then as many blocks are mined
    /// as the last batch had transactions.
    pub fn handle_cert(&self, batches: &Vec<Result<Vec<u8>, EngineError>>) -> (run: DeliveryRun)
        ensures
            run.plan().delivers(batches@),
            run.flavor() is MineAfterDelivery,
            run.sent() == 0,
            run.phase() is Ready,
    {
        let plan: DeliveryPlan = plan_delivery(batches);
        DeliveryRun::new(plan, Flavor::MineAfterDelivery)
    }

    /// Decides how to answer a query (see `rpc::handle_rpc_query`).
    pub fn handle_rpc_query(&self, parsed: Result<EthQuery, String>) -> (d: QueryDecision)
        ensures
            crate::rpc::decides(parsed, d),
    {
        crate::rpc::handle_rpc_query(parsed)
    }
}

} // verus!
