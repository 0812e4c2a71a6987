use vstd::prelude::*;

use crate::host::Address;

verus! {

/// The storage layout version that `initialize` records.
pub const VERSION: u32 = 2;

/// The payment type checked against a session cap.
pub const PAYMENT_SESSION: u32 = 0;

/// The payment type checked against a task cap.
pub const PAYMENT_TASK: u32 = 1;

/// The spending caps that `owner` set for an agent.
#[derive(Debug, PartialEq, Eq)]
pub struct Limit {
    pub owner: Address,
    pub session_cap: i128,
    pub task_cap: i128,
}

impl Clone for Limit {
    fn clone(&self) -> (res: Self)
        ensures
            res == *self,
    {
        Limit { owner: self.owner.clone(), session_cap: self.session_cap, task_cap: self.task_cap }
    }
}

} // verus!
