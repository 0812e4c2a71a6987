//! What holds of the registry contract across calls.
use vstd::prelude::*;

use crate::host::{Address, Env, Symbol};
use crate::registry::{is_valid_status, Error, Event, Registry, Service, STATUS_ACTIVE, VERSION};

verus! {

/// The price `get_price` answers for the service `s`.
pub open spec fn quoted_price(s: Option<Service>) -> Result<i128, Error> {
    match s {
        None => Err(Error::NotFound),
        Some(s) => if s.status != STATUS_ACTIVE {
            Err(Error::Paused)
        } else {
            Ok(s.price_per_call)
        },
    }
}

/// A contract is initialized at most once: after a successful `initialize`
/// the admin is the one given, the version is recorded and the contract is
/// not paused, and every later `initialize` is refused with
/// `AlreadyInitialized` and changes nothing.
pub proof fn law_initialize_once(
    s0: Registry, s1: Registry, s2: Registry,
    e0: Env, e1: Env, e2: Env, e3: Env,
    first: Address, second: Address,
    r1: Result<(), Error>, r2: Result<(), Error>,
)
    requires
        s0.initialize_effect(s1, e0, e1, first, r1),
        r1 is Ok,
        s1.initialize_effect(s2, e2, e3, second, r2),
    ensures
        s1.stored_admin == Some(first),
        s1.stored_version == Some(VERSION),
        !s1.paused(),
        r2 == Err::<(), Error>(Error::AlreadyInitialized),
        s2 == s1,
{
}

/// A registered service is read back as registered: active, at its price,
/// with its provider; it was announced by exactly one `Registered` event; and
/// registering the same id again is refused with `AlreadyExists`.
pub proof fn law_register_then_read(
    s0: Registry, s1: Registry, s2: Registry,
    e0: Env, e1: Env, e2: Env, e3: Env,
    service_id: Symbol, provider: Address, price: i128, r1: Result<(), Error>,
    provider2: Address, price2: i128, r2: Result<(), Error>,
)
    requires
        s0.register_effect(s1, e0, e1, service_id, provider, price, r1),
        r1 is Ok,
        s1.register_effect(s2, e2, e3, service_id, provider2, price2, r2),
        price2 > 0,
    ensures
        s1.service_of(service_id@) == Some(Service { provider, price_per_call: price, status: STATUS_ACTIVE }),
        quoted_price(s1.service_of(service_id@)) == Ok::<i128, Error>(price),
        e1.events@ == e0.events@.push(Event::Registered { service_id, provider, price }),
        e1.auths@ == e0.auths@.push(provider),
        r2 == Err::<(), Error>(Error::AlreadyExists),
        s2 == s1,
{
}

/// Every stored service has a positive price and a known status, whatever the
/// calls: `register`, `update_price` and `set_status` keep the storage well
/// formed, and each of them changes nothing when refused.
pub proof fn law_service_calls_keep_storage_sound(
    s0: Registry,
    e0: Env, e1: Env, e2: Env, e3: Env, e4: Env, e5: Env,
    service_id: Symbol,
    s1: Registry, provider: Address, price: i128, r1: Result<(), Error>,
    s2: Registry, new_price: i128, r2: Result<(), Error>,
    s3: Registry, new_status: u32, r3: Result<(), Error>,
)
    requires
        s0.well_formed(),
        s0.register_effect(s1, e0, e1, service_id, provider, price, r1),
        s0.update_price_effect(s2, e2, e3, service_id, new_price, r2),
        s0.set_status_effect(s3, e4, e5, service_id, new_status, r3),
    ensures
        s1.well_formed(),
        s2.well_formed(),
        s3.well_formed(),
        r1 is Err ==> s1 == s0 && e1.events@ == e0.events@,
        r2 is Err ==> s2 == s0 && e3.events@ == e2.events@,
        r3 is Err ==> s3 == s0 && e5.events@ == e4.events@,
{
    assert forall|id: Seq<char>| #[trigger] s1.services@.dom().contains(id) implies s1.services@[id].price_per_call
        > 0 && is_valid_status(s1.services@[id].status) by {
        if id != service_id@ {
            assert(s0.services@.dom().contains(id));
        }
    }
    assert forall|id: Seq<char>| #[trigger] s2.services@.dom().contains(id) implies s2.services@[id].price_per_call
        > 0 && is_valid_status(s2.services@[id].status) by {
        assert(s0.services@.dom().contains(id));
    }
    assert forall|id: Seq<char>| #[trigger] s3.services@.dom().contains(id) implies s3.services@[id].price_per_call
        > 0 && is_valid_status(s3.services@[id].status) by {
        assert(s0.services@.dom().contains(id));
    }
}

/// A new price is the price quoted from then on while the service is active:
/// after a successful `update_price`, `get_price` answers the new price for
/// an active service and `Paused` for another; the provider and status stay,
/// the provider authorized the change and `PriceUpdated` announced it.
pub proof fn law_update_price_then_quote(
    s0: Registry, s1: Registry, e0: Env, e1: Env,
    service_id: Symbol, new_price: i128, r: Result<(), Error>,
)
    requires
        s0.update_price_effect(s1, e0, e1, service_id, new_price, r),
        r is Ok,
    ensures
        s0.service_of(service_id@) matches Some(old_service) && {
            &&& s1.service_of(service_id@) == Some(Service { price_per_call: new_price, ..old_service })
            &&& quoted_price(s1.service_of(service_id@)) == (if old_service.status == STATUS_ACTIVE {
                Ok::<i128, Error>(new_price)
            } else {
                Err(Error::Paused)
            })
            &&& e1.auths@ == e0.auths@.push(old_service.provider)
            &&& e1.events@ == e0.events@.push(Event::PriceUpdated { service_id, price: new_price })
        },
{
}

/// The status decides whether a service is quoted: after a successful
/// `set_status`, `get_price` answers the stored price when the new status is
/// active and `Paused` otherwise.
pub proof fn law_status_gates_price(
    s0: Registry, s1: Registry, e0: Env, e1: Env,
    service_id: Symbol, new_status: u32, r: Result<(), Error>,
)
    requires
        s0.set_status_effect(s1, e0, e1, service_id, new_status, r),
        r is Ok,
    ensures
        s0.service_of(service_id@) matches Some(old_service) && {
            &&& s1.service_of(service_id@) == Some(Service { status: new_status, ..old_service })
            &&& quoted_price(s1.service_of(service_id@)) == (if new_status == STATUS_ACTIVE {
                Ok::<i128, Error>(old_service.price_per_call)
            } else {
                Err(Error::Paused)
            })
            &&& e1.events@ == e0.events@.push(Event::StatusUpdated { service_id, status: new_status })
        },
{
}

/// While the contract is paused no service can be registered, repriced or
/// given a new status: each is refused with `Paused`, demands nothing,
/// publishes nothing and changes nothing.
pub proof fn law_pause_blocks_service_calls(
    s0: Registry, s1: Registry,
    e0: Env, e1: Env, e2: Env, e3: Env, e4: Env, e5: Env, e6: Env, e7: Env,
    r0: Result<(), Error>,
    service_id: Symbol,
    s2: Registry, provider: Address, price: i128, r1: Result<(), Error>,
    s3: Registry, new_price: i128, r2: Result<(), Error>,
    s4: Registry, new_status: u32, r3: Result<(), Error>,
)
    requires
        s0.pause_effect(s1, e0, e1, r0),
        r0 is Ok,
        s1.register_effect(s2, e2, e3, service_id, provider, price, r1),
        s1.update_price_effect(s3, e4, e5, service_id, new_price, r2),
        s1.set_status_effect(s4, e6, e7, service_id, new_status, r3),
    ensures
        r1 == Err::<(), Error>(Error::Paused) && s2 == s1 && e3.auths@ == e2.auths@ && e3.events@ == e2.events@,
        r2 == Err::<(), Error>(Error::Paused) && s3 == s1 && e5.auths@ == e4.auths@ && e5.events@ == e4.events@,
        r3 == Err::<(), Error>(Error::Paused) && s4 == s1 && e7.auths@ == e6.auths@ && e7.events@ == e6.events@,
{
}

/// The admin calls leave the services alone.
pub proof fn law_admin_calls_keep_services(
    s0: Registry, s1: Registry, s2: Registry, s3: Registry,
    e0: Env, e1: Env, e2: Env, e3: Env, e4: Env, e5: Env, admin: Address,
    r1: Result<(), Error>, r2: Result<(), Error>, r3: Result<(), Error>,
)
    requires
        s0.initialize_effect(s1, e0, e1, admin, r1),
        s0.pause_effect(s2, e2, e3, r2),
        s0.unpause_effect(s3, e4, e5, r3),
    ensures
        s1.services == s0.services,
        s2.services == s0.services,
        s3.services == s0.services,
        s0.well_formed() ==> s1.well_formed() && s2.well_formed() && s3.well_formed(),
{
}

/// A provider may move a registered service to any of the three statuses
/// (0 active, 1 paused, 2 deprecated) from any status: on an unpaused
/// contract `set_status` succeeds and stores the new status, keeping the
/// provider and the price.
pub proof fn law_set_status_accepts_every_status(
    s0: Registry, s1: Registry, e0: Env, e1: Env,
    service_id: Symbol, new_status: u32, r: Result<(), Error>,
)
    requires
        !s0.paused(),
        s0.services@.dom().contains(service_id@),
        new_status == 0 || new_status == 1 || new_status == 2,
        s0.set_status_effect(s1, e0, e1, service_id, new_status, r),
    ensures
        r == Ok::<(), Error>(()),
        s1.services@.dom().contains(service_id@),
        s1.services@[service_id@].status == new_status,
        s1.services@[service_id@].provider == s0.services@[service_id@].provider,
        s1.services@[service_id@].price_per_call == s0.services@[service_id@].price_per_call,
{
}

/// A provider may reprice a registered service whatever its status: on an
/// unpaused contract `update_price` with a positive price succeeds and stores
/// the new price, keeping the provider and the status.
pub proof fn law_update_price_accepts_any_status(
    s0: Registry, s1: Registry, e0: Env, e1: Env,
    service_id: Symbol, new_price: i128, r: Result<(), Error>,
)
    requires
        !s0.paused(),
        s0.services@.dom().contains(service_id@),
        new_price > 0,
        s0.update_price_effect(s1, e0, e1, service_id, new_price, r),
    ensures
        r == Ok::<(), Error>(()),
        s1.services@.dom().contains(service_id@),
        s1.services@[service_id@].price_per_call == new_price,
        s1.services@[service_id@].provider == s0.services@[service_id@].provider,
        s1.services@[service_id@].status == s0.services@[service_id@].status,
{
}

/// A service id is never registered twice, whatever the status of the
/// service that holds it: `register` on a taken id fails (with
/// `AlreadyExists` on an unpaused contract at a positive price) and leaves the
/// stored service as it was.
pub proof fn law_register_never_overwrites(
    s0: Registry, s1: Registry, e0: Env, e1: Env,
    service_id: Symbol, provider: Address, price: i128, r: Result<(), Error>,
)
    requires
        s0.services@.dom().contains(service_id@),
        s0.register_effect(s1, e0, e1, service_id, provider, price, r),
    ensures
        r is Err,
        !s0.paused() && price > 0 ==> r == Err::<(), Error>(Error::AlreadyExists),
        s1.services@.dom().contains(service_id@),
        s1.services@[service_id@] == s0.services@[service_id@],
        e1.events@ == e0.events@,
{
}

} // verus!
