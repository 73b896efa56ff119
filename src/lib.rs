//! The contract layer of a bidirectional request/response/notification
//! protocol: two endpoint roles with their own message vocabularies, one
//! handling contract, one cancellation conversion rule and one way of minting
//! identifiers.
use vstd::prelude::*;

pub mod cancellation;
pub mod error;
pub mod id_provider;
pub mod model;
pub mod roles;
pub mod service_traits;
pub mod services;

pub use cancellation::CancellationRegistry;
pub use error::Error;
pub use id_provider::{
    AtomicU32ProgressTokenProvider, AtomicU32Provider, AtomicU32RequestIdProvider,
    ProgressTokenProvider, RequestIdProvider,
};
pub use model::{CancelledNotification, NumberOrString, ProgressToken, RequestId};
pub use service_traits::{
    CancellationConvertible, DynService, Reply, RequestContext, Service, ServiceRole,
    TransferObject,
};

verus! {

} // verus!
