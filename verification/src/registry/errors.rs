use vstd::prelude::*;

verus! {

/// Why a registry call was refused.
#[derive(Clone, Copy, Debug, PartialEq, Eq, Structural, PartialOrd, Ord)]
pub enum Error {
    AlreadyInitialized,
    NotFound,
    AlreadyExists,
    Paused,
    ZeroPrice,
    InvalidStatus,
}

impl Error {
    /// The number the contract reports for this error.
    pub open spec fn error_code(self) -> u32 {
        match self {
            Error::AlreadyInitialized => 1,
            Error::NotFound => 2,
            Error::AlreadyExists => 3,
            Error::Paused => 5,
            Error::ZeroPrice => 6,
            Error::InvalidStatus => 7,
        }
    }

    /// The number the contract reports for this error.
    pub fn code(&self) -> (c: u32)
        ensures
            c == self.error_code(),
    {
        match self {
            Error::AlreadyInitialized => 1,
            Error::NotFound => 2,
            Error::AlreadyExists => 3,
            Error::Paused => 5,
            Error::ZeroPrice => 6,
            Error::InvalidStatus => 7,
        }
    }
}

} // verus!
