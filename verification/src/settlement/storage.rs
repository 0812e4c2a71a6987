use vstd::prelude::*;

use crate::host::Address;

verus! {

/// The storage layout version that `initialize` records.
pub const VERSION: u32 = 2;

/// One recorded payment from `from` to `to`, with the protocol fee taken from
/// `amount` and the ledger time at which it was recorded.
#[derive(Debug, PartialEq, Eq)]
pub struct SettlementRecord {
    pub from: Address,
    pub to: Address,
    pub amount: i128,
    pub fee: i128,
    pub timestamp: u64,
}

impl Clone for SettlementRecord {
    fn clone(&self) -> (res: Self)
        ensures
            res == *self,
    {
        SettlementRecord {
            from: self.from.clone(),
            to: self.to.clone(),
            amount: self.amount,
            fee: self.fee,
            timestamp: self.timestamp,
        }
    }
}

} // verus!
