//! What holds of the budget contract across calls.
use vstd::prelude::*;

use crate::budget::{limit_verdict, Budget, Error, Limit, PAYMENT_SESSION, PAYMENT_TASK, VERSION};
use crate::host::{Address, Env, Symbol};

verus! {

/// A contract is initialized at most once: after a successful `initialize`
/// the admin is the one given, the version is recorded and the contract is
/// not paused, and every later `initialize` is refused with
/// `AlreadyInitialized` and changes nothing.
pub proof fn law_initialize_once(
    s0: Budget, s1: Budget, s2: Budget,
    e0: Env, e1: Env, e2: Env, e3: Env,
    first: Address, second: Address,
    r1: Result<(), Error>, r2: Result<(), Error>,
)
    requires
        s0.initialize_effect(s1, e0, e1, first, r1),
        r1 is Ok,
        s1.initialize_effect(s2, e2, e3, second, r2),
    ensures
        s1.stored_admin == Some(first),
        s1.stored_version == Some(VERSION),
        !s1.paused(),
        r2 == Err::<(), Error>(Error::AlreadyInitialized),
        s2 == s1,
{
}

/// What `set_limit` stores is what is read back: `get_limit` gives the new
/// limit, `check_limit` compares a session payment with the new session cap
/// and a task payment with the new task cap, and the limits of every other
/// agent stay as they were.
pub proof fn law_set_limit_then_read(
    s0: Budget, s1: Budget, e0: Env, e1: Env,
    agent: Symbol, owner: Address, session_cap: i128, task_cap: i128,
    r: Result<(), Error>,
)
    requires
        s0.set_limit_effect(s1, e0, e1, agent, owner, session_cap, task_cap, r),
        r is Ok,
    ensures
        s1.limit_of(agent@) == Some(Limit { owner, session_cap, task_cap }),
        forall|amount: i128| amount >= 0 ==>
            limit_verdict(s1.limit_of(agent@), amount, PAYMENT_SESSION) == Ok::<bool, Error>(amount <= session_cap),
        forall|amount: i128| amount >= 0 ==>
            limit_verdict(s1.limit_of(agent@), amount, PAYMENT_TASK) == Ok::<bool, Error>(amount <= task_cap),
        forall|other: Seq<char>| other != agent@ ==> s1.limit_of(other) == s0.limit_of(other),
{
}

/// An agent without a limit may spend any non-negative amount of any
/// payment type.
pub proof fn law_no_limit_allows(amount: i128, payment_type: u32)
    requires
        amount >= 0,
    ensures
        limit_verdict(None, amount, payment_type) == Ok::<bool, Error>(true),
{
}

/// While the contract is paused no limit can be set: after a successful
/// `pause`, `set_limit` is refused with `Paused`, demands no authorization and
/// changes nothing; after a successful `unpause` the contract is not paused.
pub proof fn law_pause_blocks_set_limit(
    s0: Budget, s1: Budget, s2: Budget,
    e0: Env, e1: Env, e2: Env, e3: Env,
    agent: Symbol, owner: Address, session_cap: i128, task_cap: i128,
    r1: Result<(), Error>, r2: Result<(), Error>,
)
    requires
        s0.pause_effect(s1, e0, e1, r1),
        r1 is Ok,
        s1.set_limit_effect(s2, e2, e3, agent, owner, session_cap, task_cap, r2),
    ensures
        r2 == Err::<(), Error>(Error::Paused),
        s2 == s1,
        e3.auths@ == e2.auths@,
{
}

/// A successful `unpause` leaves the contract unpaused.
pub proof fn law_unpause_resumes(s0: Budget, s1: Budget, e0: Env, e1: Env, r: Result<(), Error>)
    requires
        s0.unpause_effect(s1, e0, e1, r),
        r is Ok,
    ensures
        !s1.paused(),
{
}

/// Every stored cap is non-negative, whatever the calls: `set_limit` keeps the
/// storage well formed, and a refused `set_limit` changes nothing.
pub proof fn law_set_limit_keeps_caps_sound(
    s0: Budget, s1: Budget, e0: Env, e1: Env,
    agent: Symbol, owner: Address, session_cap: i128, task_cap: i128,
    r: Result<(), Error>,
)
    requires
        s0.well_formed(),
        s0.set_limit_effect(s1, e0, e1, agent, owner, session_cap, task_cap, r),
    ensures
        s1.well_formed(),
        r is Err ==> s1 == s0,
{
    assert forall|a: Seq<char>| #[trigger] s1.limits@.dom().contains(a) implies s1.limits@[a].session_cap >= 0
        && s1.limits@[a].task_cap >= 0 by {
        if r is Ok && a != agent@ {
            assert(s0.limits@.dom().contains(a));
        }
    }
}

/// `initialize`, `pause` and `unpause` leave the limits as they are, so they
/// too keep the storage well formed; when refused they change nothing.
pub proof fn law_admin_calls_keep_limits(
    s0: Budget, s1: Budget, s2: Budget, s3: Budget,
    e0: Env, e1: Env, e2: Env, e3: Env, e4: Env, e5: Env, admin: Address,
    r1: Result<(), Error>, r2: Result<(), Error>, r3: Result<(), Error>,
)
    requires
        s0.initialize_effect(s1, e0, e1, admin, r1),
        s0.pause_effect(s2, e2, e3, r2),
        s0.unpause_effect(s3, e4, e5, r3),
    ensures
        s1.limits == s0.limits,
        s2.limits == s0.limits,
        s3.limits == s0.limits,
        s0.well_formed() ==> s1.well_formed() && s2.well_formed() && s3.well_formed(),
        r1 is Err ==> s1 == s0,
        r2 is Err ==> s2 == s0,
        r3 is Err ==> s3 == s0,
{
}

/// Any non-negative caps may be set, zero included: on an unpaused contract
/// `set_limit` with both caps non-negative succeeds and stores exactly those
/// caps and that owner, and it answers `InvalidCap` only when a cap is
/// negative.
pub proof fn law_set_limit_accepts_non_negative_caps(
    s0: Budget, s1: Budget, e0: Env, e1: Env,
    agent: Symbol, owner: Address, session_cap: i128, task_cap: i128,
    r: Result<(), Error>,
)
    requires
        !s0.paused(),
        s0.set_limit_effect(s1, e0, e1, agent, owner, session_cap, task_cap, r),
    ensures
        session_cap >= 0 && task_cap >= 0 ==> {
            &&& r == Ok::<(), Error>(())
            &&& s1.limit_of(agent@) matches Some(l) && l.owner == owner && l.session_cap == session_cap
                && l.task_cap == task_cap
        },
        r == Err::<(), Error>(Error::InvalidCap) ==> session_cap < 0 || task_cap < 0,
        r is Err ==> r == Err::<(), Error>(Error::InvalidCap) && s1.limit_of(agent@) == s0.limit_of(agent@),
{
}

} // verus!
