//! The decision logic of a Narwhal-ordered EVM node: where a worker keeps its
//! batches, how a stored batch is decoded, which transactions a certificate
//! delivers to the EVM application and what is mined afterwards, how RPC queries
//! are answered, and how the benchmark client paces its transactions.
pub mod text;
pub mod store;
pub mod error;
pub mod worker_message;
pub mod transaction;
pub mod delivery;
pub mod run;
pub mod rpc;
pub mod shim_server;
pub mod bench;
pub mod shim_engine;
pub mod abci_engine;
