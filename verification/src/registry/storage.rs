use vstd::prelude::*;

use crate::host::Address;

verus! {

/// The storage layout version that `initialize` records.
pub const VERSION: u32 = 2;

/// A service that takes calls.
pub const STATUS_ACTIVE: u32 = 0;

/// A service that its provider has paused.
pub const STATUS_PAUSED: u32 = 1;

/// A service that its provider has retired.
pub const STATUS_DEPRECATED: u32 = 2;

/// A registered service: who provides it, its price per call and its
/// lifecycle status.
#[derive(Debug, PartialEq, Eq)]
pub struct Service {
    pub provider: Address,
    pub price_per_call: i128,
    pub status: u32,
}

impl Clone for Service {
    fn clone(&self) -> (res: Self)
        ensures
            res == *self,
    {
        Service { provider: self.provider.clone(), price_per_call: self.price_per_call, status: self.status }
    }
}

} // verus!
