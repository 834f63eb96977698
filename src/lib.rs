//! Adapter between a secret-store key server cluster and the on-chain
//! service contract that records server key generation requests.
//!
//! The chain client, the sync status provider and the signing identity live
//! outside this library: callers hand their observations in as plain values,
//! and the functions here decide what is cached, what is read, and what is
//! sent back to the chain.

pub mod types;
pub mod keccak;
pub mod pending;
pub mod service_contract;
pub mod dummy;

pub use types::{Address, H256, Public, ServiceTask};
pub use keccak::{
    public_to_address, server_key_hash, server_key_requested_event_hash, SERVER_KEY_REQUESTED_EVENT_NAME,
};
pub use pending::{PendingRequest, PendingRequestCall, PendingRequestsIterator};
pub use service_contract::{
    ChainState, ContractTransaction, LogEntry, LogFilter, OnChainServiceContract, UpdateEvent,
    SERVICE_CONTRACT_REGISTRY_NAME,
};
pub use dummy::DummyServiceContract;
