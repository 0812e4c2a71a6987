use vstd::prelude::*;

verus! {

/// Why a settlement call was refused.
#[derive(Clone, Copy, Debug, PartialEq, Eq, Structural, PartialOrd, Ord)]
pub enum Error {
    AlreadyInitialized,
    NotFound,
    AlreadyExists,
    Unauthorized,
    Paused,
    ZeroAmount,
    InvalidFee,
}

impl Error {
    /// The number the contract reports for this error.
    pub open spec fn error_code(self) -> u32 {
        match self {
            Error::AlreadyInitialized => 1,
            Error::NotFound => 2,
            Error::AlreadyExists => 3,
            Error::Unauthorized => 4,
            Error::Paused => 5,
            Error::ZeroAmount => 6,
            Error::InvalidFee => 7,
        }
    }

    /// The number the contract reports for this error.
    pub fn code(&self) -> (c: u32)
        ensures
            c == self.error_code(),
    {
        match self {
            Error::AlreadyInitialized => 1,
            Error::NotFound => 2,
            Error::AlreadyExists => 3,
            Error::Unauthorized => 4,
            Error::Paused => 5,
            Error::ZeroAmount => 6,
            Error::InvalidFee => 7,
        }
    }
}

} // verus!
