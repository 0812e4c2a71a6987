//! Spending caps: an owner sets, per agent, a cap for session payments and
//! one for task payments, and payments are checked against them.
pub mod errors;
pub mod laws;
pub mod storage;

use vstd::prelude::*;

use crate::host::{env_unchanged, only_auths_changed, Address, Env, Symbol};
use crate::symbol_map::SymbolMap;

pub use errors::Error;
pub use errors::Error as BudgetError;
pub use storage::{Limit, PAYMENT_SESSION, PAYMENT_TASK, VERSION};
pub use storage::VERSION as CONTRACT_VERSION;

verus! {

/// What `check_limit` answers for `amount` of `payment_type` when `limit` is
/// what is stored for the agent.
pub open spec fn limit_verdict(limit: Option<Limit>, amount: i128, payment_type: u32) -> Result<bool, Error> {
    if amount < 0 {
        Err(Error::InvalidCap)
    } else {
        match limit {
            None => Ok(true),
            Some(l) => if payment_type == PAYMENT_SESSION {
                Ok(amount <= l.session_cap)
            } else if payment_type == PAYMENT_TASK {
                Ok(amount <= l.task_cap)
            } else {
                Err(Error::InvalidPaymentType)
            },
        }
    }
}

/// The budget contract's storage.
///
/// Instance storage: the admin, the layout version and the pause flag, each
/// absent until `initialize` writes it. Persistent storage: the limits by
/// agent.
pub struct Budget {
    pub stored_admin: Option<Address>,
    pub stored_version: Option<u32>,
    pub stored_paused: Option<bool>,
    pub limits: SymbolMap<Limit>,
}

impl Budget {
    /// Storage of a contract that nobody has initialized.
    pub fn new() -> (s: Budget)
        ensures
            s.stored_admin is None,
            s.stored_version is None,
            s.stored_paused is None,
            s.limits@ == Map::<Seq<char>, Limit>::empty(),
    {
        Budget { stored_admin: None, stored_version: None, stored_paused: None, limits: SymbolMap::new() }
    }

    /// Whether the contract is paused; an absent flag reads as not paused.
    pub open spec fn paused(self) -> bool {
        match self.stored_paused {
            Some(p) => p,
            None => false,
        }
    }

    /// The limit stored for `agent`, if any.
    pub open spec fn limit_of(self, agent: Seq<char>) -> Option<Limit> {
        if self.limits@.dom().contains(agent) {
            Some(self.limits@[agent])
        } else {
            None
        }
    }

    /// The storage holds nothing the contract would not have written: every
    /// stored cap is non-negative.
    pub open spec fn well_formed(self) -> bool {
        forall|agent: Seq<char>|
            #[trigger] self.limits@.dom().contains(agent) ==> self.limits@[agent].session_cap >= 0
                && self.limits@[agent].task_cap >= 0
    }

    /// `Err(Paused)` when the contract is paused, `Ok(())` otherwise.
    fn require_unpaused(&self) -> (r: Result<(), Error>)
        ensures
            r == (if self.paused() { Err(Error::Paused) } else { Ok(()) }),
    {
        let paused = match self.stored_paused {
            Some(p) => p,
            None => false,
        };
        if paused {
            Err(Error::Paused)
        } else {
            Ok(())
        }
    }

    /// The admin, whose authorization it demands; `Err(NotFound)` before
    /// `initialize`.
    fn require_admin(&self, env: &mut Env) -> (r: Result<Address, Error>)
        ensures
            match self.stored_admin {
                None => r == Err::<Address, Error>(Error::NotFound) && env_unchanged(*old(env), *final(env)),
                Some(a) => r == Ok::<Address, Error>(a) && final(env).auths@ == old(env).auths@.push(a)
                    && only_auths_changed(*old(env), *final(env)),
            },
    {
        match &self.stored_admin {
            None => Err(Error::NotFound),
            Some(a) => {
                env.require_auth(a);
                Ok(a.clone())
            },
        }
    }

    /// What `initialize` does: `after` and `env_after` are the storage and the
    /// invocation after it, `r` its result.
    pub open spec fn initialize_effect(self, after: Self, env: Env, env_after: Env, admin: Address, r: Result<(), Error>) -> bool {
        &&& (self.stored_admin is Some ==> {
            &&& r == Err::<(), Error>(Error::AlreadyInitialized)
            &&& after == self
            &&& env_unchanged(env, env_after)
        })
        &&& (self.stored_admin is None ==> {
            &&& r == Ok::<(), Error>(())
            &&& after.stored_admin == Some(admin)
            &&& after.stored_version == Some(VERSION)
            &&& after.stored_paused == Some(false)
            &&& after.limits == self.limits
            &&& env_after.auths@ == env.auths@.push(admin)
            &&& only_auths_changed(env, env_after)
        })
    }

    /// Makes `admin` the admin.
    ///
    /// Refused with `AlreadyInitialized` once there is an admin; otherwise
    /// demands the authorization of `admin` and records the admin, the layout
    /// version and an unpaused flag.
    pub fn initialize(&mut self, env: &mut Env, admin: Address) -> (r: Result<(), Error>)
        ensures
            old(self).initialize_effect(*final(self), *old(env), *final(env), admin, r),
    {
        if self.stored_admin.is_some() {
            return Err(Error::AlreadyInitialized);
        }
        env.require_auth(&admin);
        self.stored_admin = Some(admin);
        self.stored_version = Some(VERSION);
        self.stored_paused = Some(false);
        Ok(())
    }

    /// The recorded layout version, 0 before `initialize`.
    pub fn version(&self) -> (v: u32)
        ensures
            v == (match self.stored_version {
                Some(v) => v,
                None => 0,
            }),
    {
        match self.stored_version {
            Some(v) => v,
            None => 0,
        }
    }

    /// What `pause` does: `after` and `env_after` are the storage and the
    /// invocation after it, `r` its result.
    pub open spec fn pause_effect(self, after: Self, env: Env, env_after: Env, r: Result<(), Error>) -> bool {
        &&& (self.stored_admin is None ==> {
            &&& r == Err::<(), Error>(Error::NotFound)
            &&& after == self
            &&& env_unchanged(env, env_after)
        })
        &&& (self.stored_admin matches Some(a) ==> {
            &&& r == Ok::<(), Error>(())
            &&& after == (Budget { stored_paused: Some(true), ..self })
            &&& env_after.auths@ == env.auths@.push(a)
            &&& only_auths_changed(env, env_after)
        })
    }

    /// Pauses the contract: refused with `NotFound` before `initialize`;
    /// otherwise demands the admin's authorization and sets the flag.
    pub fn pause(&mut self, env: &mut Env) -> (r: Result<(), Error>)
        ensures
            old(self).pause_effect(*final(self), *old(env), *final(env), r),
    {
        let _admin = self.require_admin(env)?;
        self.stored_paused = Some(true);
        Ok(())
    }

    /// What `unpause` does: `after` and `env_after` are the storage and the
    /// invocation after it, `r` its result.
    pub open spec fn unpause_effect(self, after: Self, env: Env, env_after: Env, r: Result<(), Error>) -> bool {
        &&& (self.stored_admin is None ==> {
            &&& r == Err::<(), Error>(Error::NotFound)
            &&& after == self
            &&& env_unchanged(env, env_after)
        })
        &&& (self.stored_admin matches Some(a) ==> {
            &&& r == Ok::<(), Error>(())
            &&& after == (Budget { stored_paused: Some(false), ..self })
            &&& env_after.auths@ == env.auths@.push(a)
            &&& only_auths_changed(env, env_after)
        })
    }

    /// Lifts a pause: refused with `NotFound` before `initialize`; otherwise
    /// demands the admin's authorization and clears the flag.
    pub fn unpause(&mut self, env: &mut Env) -> (r: Result<(), Error>)
        ensures
            old(self).unpause_effect(*final(self), *old(env), *final(env), r),
    {
        let _admin = self.require_admin(env)?;
        self.stored_paused = Some(false);
        Ok(())
    }

    /// What `set_limit` does: `after` and `env_after` are the storage and the
    /// invocation after it, `r` its result.
    pub open spec fn set_limit_effect(self, after: Self, env: Env, env_after: Env, agent: Symbol, owner: Address, session_cap: i128, task_cap: i128, r: Result<(), Error>) -> bool {
        &&& (self.paused() ==> {
            &&& r == Err::<(), Error>(Error::Paused)
            &&& after == self
            &&& env_unchanged(env, env_after)
        })
        &&& (!self.paused() ==> {
            &&& env_after.auths@ == env.auths@.push(owner)
            &&& only_auths_changed(env, env_after)
        })
        &&& (!self.paused() && (session_cap < 0 || task_cap < 0) ==> {
            &&& r == Err::<(), Error>(Error::InvalidCap)
            &&& after == self
        })
        &&& (!self.paused() && session_cap >= 0 && task_cap >= 0 ==> {
            &&& r == Ok::<(), Error>(())
            &&& after.limits@ == self.limits@.insert(
                agent@,
                Limit { owner, session_cap, task_cap },
            )
            &&& after.stored_admin == self.stored_admin
            &&& after.stored_version == self.stored_version
            &&& after.stored_paused == self.stored_paused
        })
    }

    /// Sets the caps of `agent`, owned by `owner`, in place of any earlier
    /// ones.
    ///
    /// Refused with `Paused` while paused; otherwise demands the authorization
    /// of `owner`, then refuses with `InvalidCap` when a cap is negative, and
    /// records the limit.
    pub fn set_limit(
        &mut self,
        env: &mut Env,
        agent: Symbol,
        owner: Address,
        session_cap: i128,
        task_cap: i128,
    ) -> (r: Result<(), Error>)
        ensures
            old(self).set_limit_effect(*final(self), *old(env), *final(env), agent, owner, session_cap, task_cap, r),
    {
        self.require_unpaused()?;
        env.require_auth(&owner);
        if session_cap < 0 || task_cap < 0 {
            return Err(Error::InvalidCap);
        }
        let limit = Limit { owner, session_cap, task_cap };
        self.limits.insert(agent, limit);
        Ok(())
    }

    /// Whether `amount` of `payment_type` is within the caps of `agent`.
    ///
    /// Refused with `InvalidCap` for a negative amount; `true` for an agent
    /// without limit; otherwise compares with the session cap (type 0) or the
    /// task cap (type 1), and refuses any other type with
    /// `InvalidPaymentType`.
    pub fn check_limit(&self, agent: Symbol, amount: i128, payment_type: u32) -> (r: Result<bool, Error>)
        ensures
            r == limit_verdict(self.limit_of(agent@), amount, payment_type),
    {
        if amount < 0 {
            return Err(Error::InvalidCap);
        }
        let limit = match self.limits.get(&agent) {
            Some(l) => l,
            None => return Ok(true),
        };
        if payment_type == PAYMENT_SESSION {
            Ok(amount <= limit.session_cap)
        } else if payment_type == PAYMENT_TASK {
            Ok(amount <= limit.task_cap)
        } else {
            Err(Error::InvalidPaymentType)
        }
    }

    /// The limit of `agent`, or `NotFound`.
    pub fn get_limit(&self, agent: Symbol) -> (r: Result<Limit, Error>)
        ensures
            r == (match self.limit_of(agent@) {
                Some(l) => Ok::<Limit, Error>(l),
                None => Err(Error::NotFound),
            }),
    {
        match self.limits.get(&agent) {
            Some(limit) => Ok(limit.clone()),
            None => Err(Error::NotFound),
        }
    }

    /// `Ok(())` when `amount` of `payment_type` is within the caps of `agent`,
    /// `OverBudget` when it is not, and the refusal of `check_limit` when that
    /// refuses.
    pub fn assert_within_budget(&self, agent: Symbol, amount: i128, payment_type: u32) -> (r: Result<(), Error>)
        ensures
            r == (match limit_verdict(self.limit_of(agent@), amount, payment_type) {
                Ok(true) => Ok::<(), Error>(()),
                Ok(false) => Err(Error::OverBudget),
                Err(e) => Err(e),
            }),
    {
        if !self.check_limit(agent, amount, payment_type)? {
            return Err(Error::OverBudget);
        }
        Ok(())
    }
}

} // verus!
