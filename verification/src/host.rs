//! The parts of a contract invocation that are not contract storage: the
//! identities that take part in it, the ledger clock, the authorizations the
//! invocation demands and the events it publishes.
use vstd::prelude::*;

use crate::registry::events::Event;

verus! {

/// An account or contract address, held by its strkey text (`G...` / `C...`).
///
/// The contracts never look inside an address: they store it, hand it back
/// and demand its authorization.
#[derive(Debug, PartialEq, Eq)]
pub struct Address {
    pub strkey: String,
}

impl View for Address {
    type V = Seq<char>;

    open spec fn view(&self) -> Seq<char> {
        self.strkey@
    }
}

impl Clone for Address {
    fn clone(&self) -> (res: Self)
        ensures
            res == *self,
    {
        Address { strkey: self.strkey.clone() }
    }
}

impl Address {
    pub fn new(strkey: String) -> (res: Address)
        ensures
            res.strkey == strkey,
    {
        Address { strkey }
    }
}

/// A contract symbol (service id, agent id, transaction id), held by its text.
#[derive(Debug, PartialEq, Eq)]
pub struct Symbol {
    pub name: String,
}

impl View for Symbol {
    type V = Seq<char>;

    open spec fn view(&self) -> Seq<char> {
        self.name@
    }
}

impl Clone for Symbol {
    fn clone(&self) -> (res: Self)
        ensures
            res == *self,
    {
        Symbol { name: self.name.clone() }
    }
}

impl Symbol {
    pub fn new(name: String) -> (res: Symbol)
        ensures
            res.name == name,
    {
        Symbol { name }
    }

    /// Whether two symbols have the same text.
    pub fn same_as(&self, other: &Symbol) -> (res: bool)
        ensures
            res == (self@ == other@),
    {
        self.name == other.name
    }
}

/// What one contract invocation sees of its host besides storage, and what it
/// leaves for the host to do.
///
/// `auths` lists, in order, the addresses whose authorization the invocation
/// demanded; the host aborts the whole invocation when one of them has not
/// authorized it, so that nothing the invocation did persists. `events` lists
/// the events it published, `ttl_extensions` the `(threshold, extend_to)`
/// requests to extend the lifetime of the contract instance.
pub struct Env {
    pub ledger_timestamp: u64,
    pub auths: Vec<Address>,
    pub events: Vec<Event>,
    pub ttl_extensions: Vec<(u32, u32)>,
}

impl Env {
    /// A fresh invocation at the given ledger time, having demanded nothing yet.
    pub fn new(ledger_timestamp: u64) -> (env: Env)
        ensures
            env.ledger_timestamp == ledger_timestamp,
            env.auths@ == Seq::<Address>::empty(),
            env.events@ == Seq::<Event>::empty(),
            env.ttl_extensions@ == Seq::<(u32, u32)>::empty(),
    {
        Env { ledger_timestamp, auths: Vec::new(), events: Vec::new(), ttl_extensions: Vec::new() }
    }

    /// The ledger timestamp of this invocation.
    pub fn timestamp(&self) -> (t: u64)
        ensures
            t == self.ledger_timestamp,
    {
        self.ledger_timestamp
    }

    /// Demands the authorization of `address` for this invocation.
    pub fn require_auth(&mut self, address: &Address)
        ensures
            final(self).auths@ == old(self).auths@.push(*address),
            final(self).events@ == old(self).events@,
            final(self).ttl_extensions@ == old(self).ttl_extensions@,
            final(self).ledger_timestamp == old(self).ledger_timestamp,
    {
        self.auths.push(address.clone());
    }

    /// Publishes `event`.
    pub fn publish(&mut self, event: Event)
        ensures
            final(self).events@ == old(self).events@.push(event),
            final(self).auths@ == old(self).auths@,
            final(self).ttl_extensions@ == old(self).ttl_extensions@,
            final(self).ledger_timestamp == old(self).ledger_timestamp,
    {
        self.events.push(event);
    }

    /// Asks the host to extend the contract instance's lifetime.
    pub fn extend_instance_ttl(&mut self, threshold: u32, extend_to: u32)
        ensures
            final(self).ttl_extensions@ == old(self).ttl_extensions@.push((threshold, extend_to)),
            final(self).auths@ == old(self).auths@,
            final(self).events@ == old(self).events@,
            final(self).ledger_timestamp == old(self).ledger_timestamp,
    {
        self.ttl_extensions.push((threshold, extend_to));
    }
}

/// Nothing but the authorizations changed between `before` and `after`.
pub open spec fn only_auths_changed(before: Env, after: Env) -> bool {
    &&& after.events@ == before.events@
    &&& after.ttl_extensions@ == before.ttl_extensions@
    &&& after.ledger_timestamp == before.ledger_timestamp
}

/// `after` is `before` with nothing demanded or published.
pub open spec fn env_unchanged(before: Env, after: Env) -> bool {
    &&& only_auths_changed(before, after)
    &&& after.auths@ == before.auths@
}

} // verus!
