//! The payment ledger: payers record settlements under a unique transaction
//! id, and the protocol fee of each is computed in basis points.
pub mod errors;
pub mod laws;
pub mod storage;

use vstd::prelude::*;

use crate::host::{env_unchanged, only_auths_changed, Address, Env, Symbol};
use crate::symbol_map::SymbolMap;

pub use errors::Error;
pub use errors::Error as SettlementError;
pub use storage::SettlementRecord;
pub use storage::VERSION;
pub use storage::VERSION as CONTRACT_VERSION;

verus! {

/// Basis points in a whole.
pub const BPS_DENOMINATOR: i128 = 10_000;

/// `a / b` rounded toward zero, as integer division in Rust does.
pub open spec fn div_toward_zero(a: int, b: int) -> int {
    if a >= 0 {
        a / b
    } else {
        -((-a) / b)
    }
}

/// The fee on `amount` at `fee_bps` basis points.
pub open spec fn fee_of(amount: int, fee_bps: int) -> int {
    div_toward_zero(amount * fee_bps, BPS_DENOMINATOR as int)
}

/// A fee rate the contract accepts: between 0 and 100 %.
pub open spec fn valid_fee_bps(fee_bps: int) -> bool {
    0 <= fee_bps <= BPS_DENOMINATOR
}

/// `amount * fee_bps` fits an `i128`.
pub open spec fn fee_product_fits(amount: int, fee_bps: int) -> bool {
    i128::MIN <= amount * fee_bps <= i128::MAX
}

/// The settlement contract's storage.
///
/// Instance storage: the admin, the layout version, the pause flag and the
/// fee rate, each absent until `initialize` writes it. Persistent storage:
/// the settlement records by transaction id.
pub struct Settlement {
    pub stored_admin: Option<Address>,
    pub stored_version: Option<u32>,
    pub stored_paused: Option<bool>,
    pub stored_fee_bps: Option<i128>,
    pub transactions: SymbolMap<SettlementRecord>,
}

impl Settlement {
    /// Storage of a contract that nobody has initialized.
    pub fn new() -> (s: Settlement)
        ensures
            s.stored_admin is None,
            s.stored_version is None,
            s.stored_paused is None,
            s.stored_fee_bps is None,
            s.transactions@ == Map::<Seq<char>, SettlementRecord>::empty(),
    {
        Settlement {
            stored_admin: None,
            stored_version: None,
            stored_paused: None,
            stored_fee_bps: None,
            transactions: SymbolMap::new(),
        }
    }

    /// Whether the contract is paused; an absent flag reads as not paused.
    pub open spec fn paused(self) -> bool {
        match self.stored_paused {
            Some(p) => p,
            None => false,
        }
    }

    /// The fee rate in force; an absent rate reads as 0.
    pub open spec fn fee_rate(self) -> i128 {
        match self.stored_fee_bps {
            Some(f) => f,
            None => 0,
        }
    }

    /// The storage holds nothing the contract would not have written: a fee
    /// rate, when there is one, is a valid rate.
    pub open spec fn well_formed(self) -> bool {
        self.stored_fee_bps matches Some(f) ==> valid_fee_bps(f as int)
    }

    /// `Err(Paused)` when the contract is paused, `Ok(())` otherwise.
    fn require_unpaused(&self) -> (r: Result<(), Error>)
        ensures
            r == (if self.paused() { Err(Error::Paused) } else { Ok(()) }),
    {
        let paused = match self.stored_paused {
            Some(p) => p,
            None => false,
        };
        if paused {
            Err(Error::Paused)
        } else {
            Ok(())
        }
    }

    /// The admin, whose authorization it demands; `Err(NotFound)` before
    /// `initialize`.
    fn require_admin(&self, env: &mut Env) -> (r: Result<Address, Error>)
        ensures
            match self.stored_admin {
                None => r == Err::<Address, Error>(Error::NotFound) && env_unchanged(*old(env), *final(env)),
                Some(a) => r == Ok::<Address, Error>(a) && final(env).auths@ == old(env).auths@.push(a)
                    && only_auths_changed(*old(env), *final(env)),
            },
    {
        match &self.stored_admin {
            None => Err(Error::NotFound),
            Some(a) => {
                env.require_auth(a);
                Ok(a.clone())
            },
        }
    }

    /// What `initialize` does: `after` and `env_after` are the storage and the
    /// invocation after it, `r` its result.
    pub open spec fn initialize_effect(self, after: Self, env: Env, env_after: Env, admin: Address, fee_bps: i128, r: Result<(), Error>) -> bool {
        &&& (self.stored_admin is Some ==> {
            &&& r == Err::<(), Error>(Error::AlreadyInitialized)
            &&& after == self
            &&& env_unchanged(env, env_after)
        })
        &&& (self.stored_admin is None && !valid_fee_bps(fee_bps as int) ==> {
            &&& r == Err::<(), Error>(Error::InvalidFee)
            &&& after == self
            &&& env_unchanged(env, env_after)
        })
        &&& (self.stored_admin is None && valid_fee_bps(fee_bps as int) ==> {
            &&& r == Ok::<(), Error>(())
            &&& after.stored_admin == Some(admin)
            &&& after.stored_version == Some(VERSION)
            &&& after.stored_paused == Some(false)
            &&& after.stored_fee_bps == Some(fee_bps)
            &&& after.transactions == self.transactions
            &&& env_after.auths@ == env.auths@.push(admin)
            &&& only_auths_changed(env, env_after)
        })
    }

    /// Makes `admin` the admin and sets the fee rate.
    ///
    /// Refused with `AlreadyInitialized` once there is an admin, and with
    /// `InvalidFee` unless `0 <= fee_bps <= 10_000`; otherwise demands the
    /// authorization of `admin`, records the admin, the layout version, an
    /// unpaused flag and the fee rate.
    pub fn initialize(&mut self, env: &mut Env, admin: Address, fee_bps: i128) -> (r: Result<(), Error>)
        ensures
            old(self).initialize_effect(*final(self), *old(env), *final(env), admin, fee_bps, r),
    {
        if self.stored_admin.is_some() {
            return Err(Error::AlreadyInitialized);
        }
        if fee_bps < 0 || fee_bps > BPS_DENOMINATOR {
            return Err(Error::InvalidFee);
        }
        env.require_auth(&admin);
        self.stored_admin = Some(admin);
        self.stored_version = Some(VERSION);
        self.stored_paused = Some(false);
        self.stored_fee_bps = Some(fee_bps);
        Ok(())
    }

    /// The recorded layout version, 0 before `initialize`.
    pub fn version(&self) -> (v: u32)
        ensures
            v == (match self.stored_version {
                Some(v) => v,
                None => 0,
            }),
    {
        match self.stored_version {
            Some(v) => v,
            None => 0,
        }
    }

    /// The fee rate in force, 0 before `initialize`.
    pub fn fee_bps(&self) -> (f: i128)
        ensures
            f == self.fee_rate(),
    {
        match self.stored_fee_bps {
            Some(f) => f,
            None => 0,
        }
    }

    /// What `set_fee_bps` does: `after` and `env_after` are the storage and the
    /// invocation after it, `r` its result.
    pub open spec fn set_fee_bps_effect(self, after: Self, env: Env, env_after: Env, fee_bps: i128, r: Result<(), Error>) -> bool {
        &&& (self.stored_admin is None ==> {
            &&& r == Err::<(), Error>(Error::NotFound)
            &&& after == self
            &&& env_unchanged(env, env_after)
        })
        &&& (self.stored_admin matches Some(a) ==> {
            &&& env_after.auths@ == env.auths@.push(a)
            &&& only_auths_changed(env, env_after)
        })
        &&& (self.stored_admin is Some && !valid_fee_bps(fee_bps as int) ==> {
            &&& r == Err::<(), Error>(Error::InvalidFee)
            &&& after == self
        })
        &&& (self.stored_admin is Some && valid_fee_bps(fee_bps as int) ==> {
            &&& r == Ok::<(), Error>(())
            &&& after == (Settlement { stored_fee_bps: Some(fee_bps), ..self })
        })
    }

    /// Sets the fee rate.
    ///
    /// Refused with `NotFound` before `initialize`; otherwise demands the
    /// admin's authorization, then refuses with `InvalidFee` unless
    /// `0 <= fee_bps <= 10_000`, and records the rate.
    pub fn set_fee_bps(&mut self, env: &mut Env, fee_bps: i128) -> (r: Result<(), Error>)
        ensures
            old(self).set_fee_bps_effect(*final(self), *old(env), *final(env), fee_bps, r),
    {
        let _admin = self.require_admin(env)?;
        if fee_bps < 0 || fee_bps > BPS_DENOMINATOR {
            return Err(Error::InvalidFee);
        }
        self.stored_fee_bps = Some(fee_bps);
        Ok(())
    }

    /// What `pause` does: `after` and `env_after` are the storage and the
    /// invocation after it, `r` its result.
    pub open spec fn pause_effect(self, after: Self, env: Env, env_after: Env, r: Result<(), Error>) -> bool {
        &&& (self.stored_admin is None ==> {
            &&& r == Err::<(), Error>(Error::NotFound)
            &&& after == self
            &&& env_unchanged(env, env_after)
        })
        &&& (self.stored_admin matches Some(a) ==> {
            &&& r == Ok::<(), Error>(())
            &&& after == (Settlement { stored_paused: Some(true), ..self })
            &&& env_after.auths@ == env.auths@.push(a)
            &&& only_auths_changed(env, env_after)
        })
    }

    /// Pauses the contract: refused with `NotFound` before `initialize`;
    /// otherwise demands the admin's authorization and sets the flag.
    pub fn pause(&mut self, env: &mut Env) -> (r: Result<(), Error>)
        ensures
            old(self).pause_effect(*final(self), *old(env), *final(env), r),
    {
        let _admin = self.require_admin(env)?;
        self.stored_paused = Some(true);
        Ok(())
    }

    /// What `unpause` does: `after` and `env_after` are the storage and the
    /// invocation after it, `r` its result.
    pub open spec fn unpause_effect(self, after: Self, env: Env, env_after: Env, r: Result<(), Error>) -> bool {
        &&& (self.stored_admin is None ==> {
            &&& r == Err::<(), Error>(Error::NotFound)
            &&& after == self
            &&& env_unchanged(env, env_after)
        })
        &&& (self.stored_admin matches Some(a) ==> {
            &&& r == Ok::<(), Error>(())
            &&& after == (Settlement { stored_paused: Some(false), ..self })
            &&& env_after.auths@ == env.auths@.push(a)
            &&& only_auths_changed(env, env_after)
        })
    }

    /// Lifts a pause: refused with `NotFound` before `initialize`; otherwise
    /// demands the admin's authorization and clears the flag.
    pub fn unpause(&mut self, env: &mut Env) -> (r: Result<(), Error>)
        ensures
            old(self).unpause_effect(*final(self), *old(env), *final(env), r),
    {
        let _admin = self.require_admin(env)?;
        self.stored_paused = Some(false);
        Ok(())
    }

    /// The fee on `amount` at `fee_bps` basis points: `amount * fee_bps /
    /// 10_000`, rounded toward zero.
    pub fn compute_fee(amount: i128, fee_bps: i128) -> (fee: i128)
        requires
            fee_product_fits(amount as int, fee_bps as int),
        ensures
            fee == fee_of(amount as int, fee_bps as int),
    {
        (amount * fee_bps) / BPS_DENOMINATOR
    }

    /// What `record_settlement` does: `after` and `env_after` are the storage and the
    /// invocation after it, `r` its result.
    pub open spec fn record_settlement_effect(self, after: Self, env: Env, env_after: Env, tx_id: Symbol, from: Address, to: Address, amount: i128, r: Result<SettlementRecord, Error>) -> bool {
        &&& (self.paused() ==> {
            &&& r == Err::<SettlementRecord, Error>(Error::Paused)
            &&& after == self
            &&& env_unchanged(env, env_after)
        })
        &&& (!self.paused() ==> {
            &&& env_after.auths@ == env.auths@.push(from)
            &&& only_auths_changed(env, env_after)
        })
        &&& (!self.paused() && amount <= 0 ==> {
            &&& r == Err::<SettlementRecord, Error>(Error::ZeroAmount)
            &&& after == self
        })
        &&& (!self.paused() && amount > 0 && self.transactions@.dom().contains(tx_id@) ==> {
            &&& r == Err::<SettlementRecord, Error>(Error::AlreadyExists)
            &&& after == self
        })
        &&& (!self.paused() && amount > 0 && !self.transactions@.dom().contains(tx_id@) ==> {
            let record = SettlementRecord {
                from,
                to,
                amount,
                fee: fee_of(amount as int, self.fee_rate() as int) as i128,
                timestamp: env.ledger_timestamp,
            };
            &&& r == Ok::<SettlementRecord, Error>(record)
            &&& after.transactions@ == self.transactions@.insert(tx_id@, record)
            &&& after.stored_admin == self.stored_admin
            &&& after.stored_version == self.stored_version
            &&& after.stored_paused == self.stored_paused
            &&& after.stored_fee_bps == self.stored_fee_bps
        })
    }

    /// Records a payment of `amount` from `from` to `to` under `tx_id`.
    ///
    /// Refused with `Paused` while paused; otherwise demands the authorization
    /// of `from`, then refuses with `ZeroAmount` unless `amount > 0` and with
    /// `AlreadyExists` when `tx_id` is taken. Otherwise records and returns
    /// the payment with the fee at the rate in force and the ledger time.
    pub fn record_settlement(
        &mut self,
        env: &mut Env,
        tx_id: Symbol,
        from: Address,
        to: Address,
        amount: i128,
    ) -> (r: Result<SettlementRecord, Error>)
        requires
            !old(self).paused() && amount > 0 && !old(self).transactions@.dom().contains(tx_id@)
                ==> fee_product_fits(amount as int, old(self).fee_rate() as int),
        ensures
            old(self).record_settlement_effect(*final(self), *old(env), *final(env), tx_id, from, to, amount, r),
    {
        self.require_unpaused()?;
        env.require_auth(&from);
        if amount <= 0 {
            return Err(Error::ZeroAmount);
        }
        if self.transactions.contains_key(&tx_id) {
            return Err(Error::AlreadyExists);
        }
        let bps = self.fee_bps();
        let fee = Self::compute_fee(amount, bps);
        let record = SettlementRecord { from, to, amount, fee, timestamp: env.timestamp() };
        self.transactions.insert(tx_id, record.clone());
        Ok(record)
    }

    /// The payment recorded under `tx_id`, or `NotFound`.
    pub fn get_transaction(&self, tx_id: Symbol) -> (r: Result<SettlementRecord, Error>)
        ensures
            self.transactions@.dom().contains(tx_id@) ==> r == Ok::<SettlementRecord, Error>(
                self.transactions@[tx_id@],
            ),
            !self.transactions@.dom().contains(tx_id@) ==> r == Err::<SettlementRecord, Error>(
                Error::NotFound,
            ),
    {
        match self.transactions.get(&tx_id) {
            Some(record) => Ok(record.clone()),
            None => Err(Error::NotFound),
        }
    }
}

} // verus!
