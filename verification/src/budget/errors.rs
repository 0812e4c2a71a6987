use vstd::prelude::*;

verus! {

/// Why a budget call was refused.
#[derive(Clone, Copy, Debug, PartialEq, Eq, Structural, PartialOrd, Ord)]
pub enum Error {
    AlreadyInitialized,
    NotFound,
    Paused,
    InvalidCap,
    InvalidPaymentType,
    OverBudget,
}

impl Error {
    /// The number the contract reports for this error.
    pub open spec fn error_code(self) -> u32 {
        match self {
            Error::AlreadyInitialized => 1,
            Error::NotFound => 2,
            Error::Paused => 5,
            Error::InvalidCap => 6,
            Error::InvalidPaymentType => 7,
            Error::OverBudget => 8,
        }
    }

    /// The number the contract reports for this error.
    pub fn code(&self) -> (c: u32)
        ensures
            c == self.error_code(),
    {
        match self {
            Error::AlreadyInitialized => 1,
            Error::NotFound => 2,
            Error::Paused => 5,
            Error::InvalidCap => 6,
            Error::InvalidPaymentType => 7,
            Error::OverBudget => 8,
        }
    }
}

} // verus!
