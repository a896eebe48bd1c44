use vstd::prelude::*;

verus! {

/// An atomic snapshot of ledger state, captured at the moment a response is
/// built. All four fields come from a single consistent read: a reply whose
/// version and epoch came from different points in time would mislead clients
/// about ordering.
#[derive(Clone, Copy, PartialEq, Eq, Structural, Debug)]
pub struct LedgerInfo {
    pub chain_id: u8,
    pub ledger_version: u64,
    pub ledger_timestamp: u64,
    pub epoch: u64,
}

impl LedgerInfo {
    pub fn new(chain_id: u8, ledger_version: u64, ledger_timestamp: u64, epoch: u64) -> (r:
        LedgerInfo)
        ensures
            r.chain_id == chain_id,
            r.ledger_version == ledger_version,
            r.ledger_timestamp == ledger_timestamp,
            r.epoch == epoch,
    {
        LedgerInfo { chain_id, ledger_version, ledger_timestamp, epoch }
    }
}

} // verus!
