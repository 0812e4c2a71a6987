//! Service discovery: providers register a service id with a price per call,
//! then update the price and the lifecycle status.
pub mod errors;
pub mod laws;
pub mod events;
pub mod storage;

use vstd::prelude::*;

use crate::host::{env_unchanged, only_auths_changed, Address, Env, Symbol};
use crate::symbol_map::SymbolMap;

pub use errors::Error;
pub use errors::Error as RegistryError;
pub use events::Event;
pub use storage::{Service, STATUS_ACTIVE, STATUS_DEPRECATED, STATUS_PAUSED, VERSION};
pub use storage::VERSION as CONTRACT_VERSION;

verus! {

/// The threshold and the target, in ledgers, of the instance lifetime
/// extension that `initialize` asks for.
pub const INSTANCE_TTL: u32 = 100_000;

/// A status the registry knows.
pub open spec fn is_valid_status(status: u32) -> bool {
    status == STATUS_ACTIVE || status == STATUS_PAUSED || status == STATUS_DEPRECATED
}

/// `Ok(())` for a positive price, `Err(ZeroPrice)` otherwise.
pub fn require_positive_price(price: i128) -> (r: Result<(), Error>)
    ensures
        r == (if price <= 0 { Err(Error::ZeroPrice) } else { Ok(()) }),
{
    if price <= 0 {
        Err(Error::ZeroPrice)
    } else {
        Ok(())
    }
}

/// Whether `status` is active, paused or deprecated.
pub fn valid_status(status: u32) -> (b: bool)
    ensures
        b == is_valid_status(status),
{
    status == STATUS_ACTIVE || status == STATUS_PAUSED || status == STATUS_DEPRECATED
}

/// The registry contract's storage.
///
/// Instance storage: the admin, the layout version and the pause flag, each
/// absent until `initialize` writes it. Persistent storage: the services by
/// id.
pub struct Registry {
    pub stored_admin: Option<Address>,
    pub stored_version: Option<u32>,
    pub stored_paused: Option<bool>,
    pub services: SymbolMap<Service>,
}

impl Registry {
    /// Storage of a contract that nobody has initialized.
    pub fn new() -> (s: Registry)
        ensures
            s.stored_admin is None,
            s.stored_version is None,
            s.stored_paused is None,
            s.services@ == Map::<Seq<char>, Service>::empty(),
    {
        Registry { stored_admin: None, stored_version: None, stored_paused: None, services: SymbolMap::new() }
    }

    /// Whether the contract is paused; an absent flag reads as not paused.
    pub open spec fn paused(self) -> bool {
        match self.stored_paused {
            Some(p) => p,
            None => false,
        }
    }

    /// The service stored under `id`, if any.
    pub open spec fn service_of(self, id: Seq<char>) -> Option<Service> {
        if self.services@.dom().contains(id) {
            Some(self.services@[id])
        } else {
            None
        }
    }

    /// The storage holds nothing the contract would not have written: every
    /// stored service has a positive price and a known status.
    pub open spec fn well_formed(self) -> bool {
        forall|id: Seq<char>|
            #[trigger] self.services@.dom().contains(id) ==> self.services@[id].price_per_call > 0
                && is_valid_status(self.services@[id].status)
    }

    /// `Err(Paused)` when the contract is paused, `Ok(())` otherwise.
    fn require_unpaused(&self) -> (r: Result<(), Error>)
        ensures
            r == (if self.paused() { Err(Error::Paused) } else { Ok(()) }),
    {
        let paused = match self.stored_paused {
            Some(p) => p,
            None => false,
        };
        if paused {
            Err(Error::Paused)
        } else {
            Ok(())
        }
    }

    /// The admin, whose authorization it demands; `Err(NotFound)` before
    /// `initialize`.
    fn require_admin(&self, env: &mut Env) -> (r: Result<Address, Error>)
        ensures
            match self.stored_admin {
                None => r == Err::<Address, Error>(Error::NotFound) && env_unchanged(*old(env), *final(env)),
                Some(a) => r == Ok::<Address, Error>(a) && final(env).auths@ == old(env).auths@.push(a)
                    && only_auths_changed(*old(env), *final(env)),
            },
    {
        match &self.stored_admin {
            None => Err(Error::NotFound),
            Some(a) => {
                env.require_auth(a);
                Ok(a.clone())
            },
        }
    }

    /// What `initialize` does: `after` and `env_after` are the storage and the
    /// invocation after it, `r` its result.
    pub open spec fn initialize_effect(self, after: Self, env: Env, env_after: Env, admin: Address, r: Result<(), Error>) -> bool {
        &&& (self.stored_admin is Some ==> {
            &&& r == Err::<(), Error>(Error::AlreadyInitialized)
            &&& after == self
            &&& env_unchanged(env, env_after)
        })
        &&& (self.stored_admin is None ==> {
            &&& r == Ok::<(), Error>(())
            &&& after.stored_admin == Some(admin)
            &&& after.stored_version == Some(VERSION)
            &&& after.stored_paused == Some(false)
            &&& after.services == self.services
            &&& env_after.auths@ == env.auths@.push(admin)
            &&& env_after.ttl_extensions@ == env.ttl_extensions@.push((INSTANCE_TTL, INSTANCE_TTL))
            &&& env_after.events@ == env.events@
            &&& env_after.ledger_timestamp == env.ledger_timestamp
        })
    }

    /// Makes `admin` the admin.
    ///
    /// Refused with `AlreadyInitialized` once there is an admin; otherwise
    /// demands the authorization of `admin`, records the admin, the layout
    /// version and an unpaused flag, and asks to extend the instance lifetime.
    pub fn initialize(&mut self, env: &mut Env, admin: Address) -> (r: Result<(), Error>)
        ensures
            old(self).initialize_effect(*final(self), *old(env), *final(env), admin, r),
    {
        if self.stored_admin.is_some() {
            return Err(Error::AlreadyInitialized);
        }
        env.require_auth(&admin);
        self.stored_admin = Some(admin);
        self.stored_version = Some(VERSION);
        self.stored_paused = Some(false);
        env.extend_instance_ttl(INSTANCE_TTL, INSTANCE_TTL);
        Ok(())
    }

    /// The recorded layout version, 0 before `initialize`.
    pub fn version(&self) -> (v: u32)
        ensures
            v == (match self.stored_version {
                Some(v) => v,
                None => 0,
            }),
    {
        match self.stored_version {
            Some(v) => v,
            None => 0,
        }
    }

    /// The admin, `None` before `initialize`.
    pub fn admin(&self) -> (a: Option<Address>)
        ensures
            a == self.stored_admin,
    {
        match &self.stored_admin {
            Some(a) => Some(a.clone()),
            None => None,
        }
    }

    /// Whether the contract is paused.
    pub fn is_paused(&self) -> (p: bool)
        ensures
            p == self.paused(),
    {
        match self.stored_paused {
            Some(p) => p,
            None => false,
        }
    }

    /// What `pause` does: `after` and `env_after` are the storage and the
    /// invocation after it, `r` its result.
    pub open spec fn pause_effect(self, after: Self, env: Env, env_after: Env, r: Result<(), Error>) -> bool {
        &&& (self.stored_admin is None ==> {
            &&& r == Err::<(), Error>(Error::NotFound)
            &&& after == self
            &&& env_unchanged(env, env_after)
        })
        &&& (self.stored_admin matches Some(a) ==> {
            &&& r == Ok::<(), Error>(())
            &&& after == (Registry { stored_paused: Some(true), ..self })
            &&& env_after.auths@ == env.auths@.push(a)
            &&& only_auths_changed(env, env_after)
        })
    }

    /// Pauses the contract: refused with `NotFound` before `initialize`;
    /// otherwise demands the admin's authorization and sets the flag.
    pub fn pause(&mut self, env: &mut Env) -> (r: Result<(), Error>)
        ensures
            old(self).pause_effect(*final(self), *old(env), *final(env), r),
    {
        let _admin = self.require_admin(env)?;
        self.stored_paused = Some(true);
        Ok(())
    }

    /// What `unpause` does: `after` and `env_after` are the storage and the
    /// invocation after it, `r` its result.
    pub open spec fn unpause_effect(self, after: Self, env: Env, env_after: Env, r: Result<(), Error>) -> bool {
        &&& (self.stored_admin is None ==> {
            &&& r == Err::<(), Error>(Error::NotFound)
            &&& after == self
            &&& env_unchanged(env, env_after)
        })
        &&& (self.stored_admin matches Some(a) ==> {
            &&& r == Ok::<(), Error>(())
            &&& after == (Registry { stored_paused: Some(false), ..self })
            &&& env_after.auths@ == env.auths@.push(a)
            &&& only_auths_changed(env, env_after)
        })
    }

    /// Lifts a pause: refused with `NotFound` before `initialize`; otherwise
    /// demands the admin's authorization and clears the flag.
    pub fn unpause(&mut self, env: &mut Env) -> (r: Result<(), Error>)
        ensures
            old(self).unpause_effect(*final(self), *old(env), *final(env), r),
    {
        let _admin = self.require_admin(env)?;
        self.stored_paused = Some(false);
        Ok(())
    }

    /// What `register` does: `after` and `env_after` are the storage and the
    /// invocation after it, `r` its result.
    pub open spec fn register_effect(self, after: Self, env: Env, env_after: Env, service_id: Symbol, provider: Address, price_per_call: i128, r: Result<(), Error>) -> bool {
        &&& (self.paused() ==> {
            &&& r == Err::<(), Error>(Error::Paused)
            &&& after == self
            &&& env_unchanged(env, env_after)
        })
        &&& (!self.paused() ==> {
            &&& env_after.auths@ == env.auths@.push(provider)
            &&& env_after.ttl_extensions@ == env.ttl_extensions@
            &&& env_after.ledger_timestamp == env.ledger_timestamp
        })
        &&& (!self.paused() && price_per_call <= 0 ==> {
            &&& r == Err::<(), Error>(Error::ZeroPrice)
            &&& after == self
            &&& env_after.events@ == env.events@
        })
        &&& (!self.paused() && price_per_call > 0 && self.services@.dom().contains(service_id@) ==> {
            &&& r == Err::<(), Error>(Error::AlreadyExists)
            &&& after == self
            &&& env_after.events@ == env.events@
        })
        &&& (!self.paused() && price_per_call > 0 && !self.services@.dom().contains(service_id@) ==> {
            &&& r == Ok::<(), Error>(())
            &&& after.services@ == self.services@.insert(
                service_id@,
                Service { provider, price_per_call, status: STATUS_ACTIVE },
            )
            &&& after.stored_admin == self.stored_admin
            &&& after.stored_version == self.stored_version
            &&& after.stored_paused == self.stored_paused
            &&& env_after.events@ == env.events@.push(
                Event::Registered { service_id, provider, price: price_per_call },
            )
        })
    }

    /// Registers `service_id`, provided by `provider` at `price_per_call`.
    ///
    /// Refused with `Paused` while paused; otherwise demands the authorization
    /// of `provider`, then refuses with `ZeroPrice` unless the price is
    /// positive and with `AlreadyExists` when the id is taken. Otherwise
    /// records the service as active and publishes `Registered`.
    pub fn register(
        &mut self,
        env: &mut Env,
        service_id: Symbol,
        provider: Address,
        price_per_call: i128,
    ) -> (r: Result<(), Error>)
        ensures
            old(self).register_effect(*final(self), *old(env), *final(env), service_id, provider, price_per_call, r),
    {
        self.require_unpaused()?;
        env.require_auth(&provider);
        require_positive_price(price_per_call)?;
        if self.services.contains_key(&service_id) {
            return Err(Error::AlreadyExists);
        }
        let service = Service { provider: provider.clone(), price_per_call, status: STATUS_ACTIVE };
        self.services.insert(service_id.clone(), service);
        events::registered(env, &service_id, &provider, price_per_call);
        Ok(())
    }

    /// The price per call of `service_id`: refused with `NotFound` for an
    /// unknown id and with `Paused` unless the service is active.
    pub fn get_price(&self, service_id: Symbol) -> (r: Result<i128, Error>)
        ensures
            r == (match self.service_of(service_id@) {
                None => Err::<i128, Error>(Error::NotFound),
                Some(s) => if s.status != STATUS_ACTIVE {
                    Err(Error::Paused)
                } else {
                    Ok(s.price_per_call)
                },
            }),
    {
        let service = match self.services.get(&service_id) {
            Some(s) => s,
            None => return Err(Error::NotFound),
        };
        if service.status != STATUS_ACTIVE {
            return Err(Error::Paused);
        }
        Ok(service.price_per_call)
    }

    /// The service registered under `service_id`, or `NotFound`.
    pub fn get_service(&self, service_id: Symbol) -> (r: Result<Service, Error>)
        ensures
            r == (match self.service_of(service_id@) {
                Some(s) => Ok::<Service, Error>(s),
                None => Err(Error::NotFound),
            }),
    {
        match self.services.get(&service_id) {
            Some(s) => Ok(s.clone()),
            None => Err(Error::NotFound),
        }
    }

    /// What `update_price` does: `after` and `env_after` are the storage and the
    /// invocation after it, `r` its result.
    pub open spec fn update_price_effect(self, after: Self, env: Env, env_after: Env, service_id: Symbol, new_price: i128, r: Result<(), Error>) -> bool {
        &&& (self.paused() ==> {
            &&& r == Err::<(), Error>(Error::Paused)
            &&& after == self
            &&& env_unchanged(env, env_after)
        })
        &&& (!self.paused() && new_price <= 0 ==> {
            &&& r == Err::<(), Error>(Error::ZeroPrice)
            &&& after == self
            &&& env_unchanged(env, env_after)
        })
        &&& (!self.paused() && new_price > 0 && !self.services@.dom().contains(service_id@) ==> {
            &&& r == Err::<(), Error>(Error::NotFound)
            &&& after == self
            &&& env_unchanged(env, env_after)
        })
        &&& (!self.paused() && new_price > 0 && self.services@.dom().contains(service_id@) ==> {
            let old_service = self.services@[service_id@];
            &&& r == Ok::<(), Error>(())
            &&& after.services@ == self.services@.insert(
                service_id@,
                Service { price_per_call: new_price, ..old_service },
            )
            &&& after.stored_admin == self.stored_admin
            &&& after.stored_version == self.stored_version
            &&& after.stored_paused == self.stored_paused
            &&& env_after.auths@ == env.auths@.push(old_service.provider)
            &&& env_after.events@ == env.events@.push(
                Event::PriceUpdated { service_id, price: new_price },
            )
            &&& env_after.ttl_extensions@ == env.ttl_extensions@
            &&& env_after.ledger_timestamp == env.ledger_timestamp
        })
    }

    /// Sets the price per call of `service_id`.
    ///
    /// Refused with `Paused` while paused, with `ZeroPrice` unless the price
    /// is positive and with `NotFound` for an unknown id; otherwise demands
    /// the authorization of the service's provider, records the price and
    /// publishes `PriceUpdated`.
    pub fn update_price(&mut self, env: &mut Env, service_id: Symbol, new_price: i128) -> (r: Result<(), Error>)
        ensures
            old(self).update_price_effect(*final(self), *old(env), *final(env), service_id, new_price, r),
    {
        self.require_unpaused()?;
        require_positive_price(new_price)?;
        let mut service = match self.services.get(&service_id) {
            Some(s) => s.clone(),
            None => return Err(Error::NotFound),
        };
        env.require_auth(&service.provider);
        service.price_per_call = new_price;
        self.services.insert(service_id.clone(), service);
        events::price_updated(env, &service_id, new_price);
        Ok(())
    }

    /// What `set_status` does: `after` and `env_after` are the storage and the
    /// invocation after it, `r` its result.
    pub open spec fn set_status_effect(self, after: Self, env: Env, env_after: Env, service_id: Symbol, new_status: u32, r: Result<(), Error>) -> bool {
        &&& (self.paused() ==> {
            &&& r == Err::<(), Error>(Error::Paused)
            &&& after == self
            &&& env_unchanged(env, env_after)
        })
        &&& (!self.paused() && !is_valid_status(new_status) ==> {
            &&& r == Err::<(), Error>(Error::InvalidStatus)
            &&& after == self
            &&& env_unchanged(env, env_after)
        })
        &&& (!self.paused() && is_valid_status(new_status) && !self.services@.dom().contains(service_id@) ==> {
            &&& r == Err::<(), Error>(Error::NotFound)
            &&& after == self
            &&& env_unchanged(env, env_after)
        })
        &&& (!self.paused() && is_valid_status(new_status) && self.services@.dom().contains(service_id@) ==> {
            let old_service = self.services@[service_id@];
            &&& r == Ok::<(), Error>(())
            &&& after.services@ == self.services@.insert(
                service_id@,
                Service { status: new_status, ..old_service },
            )
            &&& after.stored_admin == self.stored_admin
            &&& after.stored_version == self.stored_version
            &&& after.stored_paused == self.stored_paused
            &&& env_after.auths@ == env.auths@.push(old_service.provider)
            &&& env_after.events@ == env.events@.push(
                Event::StatusUpdated { service_id, status: new_status },
            )
            &&& env_after.ttl_extensions@ == env.ttl_extensions@
            &&& env_after.ledger_timestamp == env.ledger_timestamp
        })
    }

    /// Sets the lifecycle status of `service_id`.
    ///
    /// Refused with `Paused` while paused, with `InvalidStatus` for an unknown
    /// status and with `NotFound` for an unknown id; otherwise demands the
    /// authorization of the service's provider, records the status and
    /// publishes `StatusUpdated`.
    pub fn set_status(&mut self, env: &mut Env, service_id: Symbol, new_status: u32) -> (r: Result<(), Error>)
        ensures
            old(self).set_status_effect(*final(self), *old(env), *final(env), service_id, new_status, r),
    {
        self.require_unpaused()?;
        if !valid_status(new_status) {
            return Err(Error::InvalidStatus);
        }
        let mut service = match self.services.get(&service_id) {
            Some(s) => s.clone(),
            None => return Err(Error::NotFound),
        };
        env.require_auth(&service.provider);
        service.status = new_status;
        self.services.insert(service_id.clone(), service);
        events::status_updated(env, &service_id, new_status);
        Ok(())
    }
}

} // verus!
