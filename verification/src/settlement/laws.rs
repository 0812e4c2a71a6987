//! What holds of the settlement contract across calls.
use vstd::prelude::*;

use crate::host::{Address, Env, Symbol};
use crate::settlement::{fee_of, fee_product_fits, valid_fee_bps, Error, Settlement, SettlementRecord, VERSION};

verus! {

/// At a valid rate, the fee on a non-negative amount is between 0 and the
/// amount itself, and computing it cannot overflow for amounts up to
/// `i128::MAX / 10_000`.
pub proof fn law_fee_within_amount(amount: i128, fee_bps: i128)
    requires
        amount >= 0,
        valid_fee_bps(fee_bps as int),
    ensures
        0 <= fee_of(amount as int, fee_bps as int) <= amount,
        amount <= i128::MAX / 10_000 ==> fee_product_fits(amount as int, fee_bps as int),
{
    let p = amount as int * fee_bps as int;
    assert(0 <= p <= amount as int * 10_000) by (nonlinear_arith)
        requires
            amount >= 0,
            0 <= fee_bps <= 10_000,
            p == amount as int * fee_bps as int,
    ;
    assert(p / 10_000 <= amount) by (nonlinear_arith)
        requires
            0 <= p <= amount as int * 10_000,
    ;
    assert(0 <= p / 10_000) by (nonlinear_arith)
        requires
            0 <= p,
    ;
}

/// A contract is initialized at most once: after a successful `initialize`
/// the admin and fee rate are the ones given, the version is recorded and the
/// contract is not paused, and every later `initialize` is refused with
/// `AlreadyInitialized` and changes nothing.
pub proof fn law_initialize_once(
    s0: Settlement, s1: Settlement, s2: Settlement,
    e0: Env, e1: Env, e2: Env, e3: Env,
    first: Address, first_fee: i128, second: Address, second_fee: i128,
    r1: Result<(), Error>, r2: Result<(), Error>,
)
    requires
        s0.initialize_effect(s1, e0, e1, first, first_fee, r1),
        r1 is Ok,
        s1.initialize_effect(s2, e2, e3, second, second_fee, r2),
    ensures
        s1.stored_admin == Some(first),
        s1.stored_version == Some(VERSION),
        s1.fee_rate() == first_fee,
        !s1.paused(),
        r2 == Err::<(), Error>(Error::AlreadyInitialized),
        s2 == s1,
{
}

/// The fee rate in force is always a valid rate: `initialize` and
/// `set_fee_bps` only ever store a valid one, and the other calls leave it
/// alone.
pub proof fn law_fee_rate_stays_valid(
    s0: Settlement,
    e0: Env, e1: Env, e2: Env, e3: Env, e4: Env, e5: Env, e6: Env, e7: Env, e8: Env, e9: Env,
    s1: Settlement, admin: Address, init_fee: i128, r1: Result<(), Error>,
    s2: Settlement, new_fee: i128, r2: Result<(), Error>,
    s3: Settlement, r3: Result<(), Error>,
    s4: Settlement, r4: Result<(), Error>,
    s5: Settlement, tx_id: Symbol, from: Address, to: Address, amount: i128, r5: Result<SettlementRecord, Error>,
)
    requires
        s0.well_formed(),
        s0.initialize_effect(s1, e0, e1, admin, init_fee, r1),
        s0.set_fee_bps_effect(s2, e2, e3, new_fee, r2),
        s0.pause_effect(s3, e4, e5, r3),
        s0.unpause_effect(s4, e6, e7, r4),
        s0.record_settlement_effect(s5, e8, e9, tx_id, from, to, amount, r5),
    ensures
        s1.well_formed(),
        s2.well_formed(),
        s3.well_formed(),
        s4.well_formed(),
        s5.well_formed(),
{
}

/// A recorded payment is read back as recorded: `get_transaction` gives the
/// record, whose fee, at a valid rate, is between 0 and the amount; and a
/// second payment under the same id is refused with `AlreadyExists` and
/// changes nothing.
pub proof fn law_record_then_read(
    s0: Settlement, s1: Settlement, s2: Settlement,
    e0: Env, e1: Env, e2: Env, e3: Env,
    tx_id: Symbol, from: Address, to: Address, amount: i128, r1: Result<SettlementRecord, Error>,
    from2: Address, to2: Address, amount2: i128, r2: Result<SettlementRecord, Error>,
)
    requires
        s0.well_formed(),
        s0.record_settlement_effect(s1, e0, e1, tx_id, from, to, amount, r1),
        r1 is Ok,
        s1.record_settlement_effect(s2, e2, e3, tx_id, from2, to2, amount2, r2),
        amount2 > 0,
    ensures
        s1.transactions@.dom().contains(tx_id@),
        r1 == Ok::<SettlementRecord, Error>(s1.transactions@[tx_id@]),
        s1.transactions@[tx_id@].from == from,
        s1.transactions@[tx_id@].to == to,
        s1.transactions@[tx_id@].amount == amount,
        s1.transactions@[tx_id@].timestamp == e0.ledger_timestamp,
        0 <= s1.transactions@[tx_id@].fee <= amount,
        r2 == Err::<SettlementRecord, Error>(Error::AlreadyExists),
        s2 == s1,
{
    law_fee_within_amount(amount, s0.fee_rate());
}

/// Recorded payments are never altered: `record_settlement` keeps every
/// record under another id, and the other calls keep all records.
pub proof fn law_records_are_permanent(
    s0: Settlement, s1: Settlement, e0: Env, e1: Env,
    tx_id: Symbol, from: Address, to: Address, amount: i128, r: Result<SettlementRecord, Error>,
    earlier: Seq<char>,
)
    requires
        s0.record_settlement_effect(s1, e0, e1, tx_id, from, to, amount, r),
        s0.transactions@.dom().contains(earlier),
    ensures
        s1.transactions@.dom().contains(earlier),
        s1.transactions@[earlier] == s0.transactions@[earlier],
{
}

/// While the contract is paused no payment can be recorded: after a
/// successful `pause`, `record_settlement` is refused with `Paused`, demands
/// no authorization and changes nothing.
pub proof fn law_pause_blocks_record(
    s0: Settlement, s1: Settlement, s2: Settlement,
    e0: Env, e1: Env, e2: Env, e3: Env,
    tx_id: Symbol, from: Address, to: Address, amount: i128,
    r1: Result<(), Error>, r2: Result<SettlementRecord, Error>,
)
    requires
        s0.pause_effect(s1, e0, e1, r1),
        r1 is Ok,
        s1.record_settlement_effect(s2, e2, e3, tx_id, from, to, amount, r2),
    ensures
        r2 == Err::<SettlementRecord, Error>(Error::Paused),
        s2 == s1,
        e3.auths@ == e2.auths@,
{
}

/// The admin may set any rate from 0 to 10_000 bps, 0 included: on an
/// initialized contract `set_fee_bps` accepts every such rate, and the rate in
/// force afterwards is that rate; it refuses only a rate outside that range.
pub proof fn law_set_fee_bps_accepts_every_valid_rate(
    s0: Settlement, s1: Settlement, e0: Env, e1: Env, fee_bps: i128, r: Result<(), Error>,
)
    requires
        s0.stored_admin is Some,
        s0.set_fee_bps_effect(s1, e0, e1, fee_bps, r),
    ensures
        0 <= fee_bps <= 10_000 ==> r == Ok::<(), Error>(()) && s1.fee_rate() == fee_bps,
        r is Err ==> fee_bps < 0 || fee_bps > 10_000,
        r is Err ==> s1.fee_rate() == s0.fee_rate(),
{
}

} // verus!
