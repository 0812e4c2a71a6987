//! The events the registry publishes.
use vstd::prelude::*;

use crate::host::{Address, Env};

use crate::host::Symbol;

verus! {

/// An event of the registry: topics `("reg_svc", service_id)` with data
/// `(provider, price)`, `("upd_prc", service_id)` with data `price`, and
/// `("upd_st", service_id)` with data `status`.
#[derive(Debug, PartialEq, Eq)]
pub enum Event {
    Registered { service_id: Symbol, provider: Address, price: i128 },
    PriceUpdated { service_id: Symbol, price: i128 },
    StatusUpdated { service_id: Symbol, status: u32 },
}

impl Event {
    /// The name in the first topic of the event.
    pub open spec fn topic_name(self) -> Seq<char> {
        match self {
            Event::Registered { .. } => seq!['r', 'e', 'g', '_', 's', 'v', 'c'],
            Event::PriceUpdated { .. } => seq!['u', 'p', 'd', '_', 'p', 'r', 'c'],
            Event::StatusUpdated { .. } => seq!['u', 'p', 'd', '_', 's', 't'],
        }
    }

    /// The name in the first topic of the event.
    pub fn topic(&self) -> (t: &'static str)
        ensures
            t@ == self.topic_name(),
    {
        match self {
            Event::Registered { .. } => {
                proof {
                    reveal_strlit("reg_svc");
                }
                "reg_svc"
            },
            Event::PriceUpdated { .. } => {
                proof {
                    reveal_strlit("upd_prc");
                }
                "upd_prc"
            },
            Event::StatusUpdated { .. } => {
                proof {
                    reveal_strlit("upd_st");
                }
                "upd_st"
            },
        }
    }
}

/// Publishes that `provider` registered `service_id` at `price` per call.
pub fn registered(env: &mut Env, service_id: &Symbol, provider: &Address, price: i128)
    ensures
        final(env).events@ == old(env).events@.push(
            Event::Registered { service_id: *service_id, provider: *provider, price },
        ),
        final(env).auths@ == old(env).auths@,
        final(env).ttl_extensions@ == old(env).ttl_extensions@,
        final(env).ledger_timestamp == old(env).ledger_timestamp,
{
    env.publish(Event::Registered { service_id: service_id.clone(), provider: provider.clone(), price });
}

/// Publishes that the price of `service_id` is now `price`.
pub fn price_updated(env: &mut Env, service_id: &Symbol, price: i128)
    ensures
        final(env).events@ == old(env).events@.push(Event::PriceUpdated { service_id: *service_id, price }),
        final(env).auths@ == old(env).auths@,
        final(env).ttl_extensions@ == old(env).ttl_extensions@,
        final(env).ledger_timestamp == old(env).ledger_timestamp,
{
    env.publish(Event::PriceUpdated { service_id: service_id.clone(), price });
}

/// Publishes that the status of `service_id` is now `status`.
pub fn status_updated(env: &mut Env, service_id: &Symbol, status: u32)
    ensures
        final(env).events@ == old(env).events@.push(Event::StatusUpdated { service_id: *service_id, status }),
        final(env).auths@ == old(env).auths@,
        final(env).ttl_extensions@ == old(env).ttl_extensions@,
        final(env).ledger_timestamp == old(env).ledger_timestamp,
{
    env.publish(Event::StatusUpdated { service_id: service_id.clone(), status });
}

} // verus!
