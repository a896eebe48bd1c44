//! Boundary pieces of a distributed ledger's client/server path: a versioned
//! response envelope that stamps every reply with ledger-state metadata, and a
//! deadline-bounded readiness probe for freshly started service instances.

pub mod dec;
pub mod error;
pub mod instance;
pub mod ledger;
pub mod probe;
pub mod response;
