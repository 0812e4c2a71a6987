use primar::host::{Address, Env, Symbol};
use primar::settlement::{Error, Settlement, SettlementError, SettlementRecord, CONTRACT_VERSION};

fn addr(s: &str) -> Address {
    Address::new(s.to_string())
}

fn sym(s: &str) -> Symbol {
    Symbol::new(s.to_string())
}

#[test]
fn compute_fee_twenty_bps() {
    assert_eq!(Settlement::compute_fee(1000i128, 20i128), 2i128);
}

#[test]
fn compute_fee_zero_bps() {
    assert_eq!(Settlement::compute_fee(5_000i128, 0i128), 0i128);
}

#[test]
fn compute_fee_hundred_bps() {
    assert_eq!(Settlement::compute_fee(10_000i128, 100i128), 100i128);
}

#[test]
fn compute_fee_rounds_toward_zero() {
    assert_eq!(Settlement::compute_fee(9_999i128, 1i128), 0i128);
    assert_eq!(Settlement::compute_fee(-9_999i128, 1i128), 0i128);
    assert_eq!(Settlement::compute_fee(-20_000i128, 1i128), -2i128);
    assert_eq!(Settlement::compute_fee(123_456i128, 10_000i128), 123_456i128);
    assert_eq!(Settlement::compute_fee(123_456i128, 250i128), 3_086i128);
}

#[test]
fn error_codes_match_contract() {
    assert_eq!(Error::AlreadyInitialized.code(), 1);
    assert_eq!(Error::NotFound.code(), 2);
    assert_eq!(Error::AlreadyExists.code(), 3);
    assert_eq!(Error::Unauthorized.code(), 4);
    assert_eq!(Error::Paused.code(), 5);
    assert_eq!(Error::ZeroAmount.code(), 6);
    assert_eq!(SettlementError::InvalidFee.code(), 7);
}

#[test]
fn fresh_contract_reads_defaults() {
    let s = Settlement::new();
    assert_eq!(s.version(), 0);
    assert_eq!(s.fee_bps(), 0);
    assert_eq!(s.get_transaction(sym("tx1")), Err(Error::NotFound));
}

#[test]
fn initialize_once_with_valid_fee() {
    let mut s = Settlement::new();
    let mut env = Env::new(100);
    assert_eq!(s.initialize(&mut env, addr("GADMIN"), 10_001), Err(Error::InvalidFee));
    assert_eq!(s.initialize(&mut env, addr("GADMIN"), -1), Err(Error::InvalidFee));
    assert!(env.auths.is_empty());
    assert_eq!(s.version(), 0);
    assert_eq!(s.initialize(&mut env, addr("GADMIN"), 20), Ok(()));
    assert_eq!(env.auths, vec![addr("GADMIN")]);
    assert_eq!(s.version(), CONTRACT_VERSION);
    assert_eq!(s.version(), 2);
    assert_eq!(s.fee_bps(), 20);
    assert_eq!(s.initialize(&mut env, addr("GOTHER"), 30), Err(Error::AlreadyInitialized));
    assert_eq!(s.fee_bps(), 20);
    assert_eq!(env.auths, vec![addr("GADMIN")]);
}

#[test]
fn admin_calls_before_initialize_not_found() {
    let mut s = Settlement::new();
    let mut env = Env::new(0);
    assert_eq!(s.pause(&mut env), Err(Error::NotFound));
    assert_eq!(s.unpause(&mut env), Err(Error::NotFound));
    assert_eq!(s.set_fee_bps(&mut env, 5), Err(Error::NotFound));
    assert!(env.auths.is_empty());
}

#[test]
fn set_fee_bps_demands_admin_and_validates() {
    let mut s = Settlement::new();
    let mut env = Env::new(0);
    s.initialize(&mut env, addr("GADMIN"), 0).unwrap();
    let mut env = Env::new(0);
    assert_eq!(s.set_fee_bps(&mut env, 10_000), Ok(()));
    assert_eq!(s.fee_bps(), 10_000);
    assert_eq!(s.set_fee_bps(&mut env, 10_001), Err(Error::InvalidFee));
    assert_eq!(s.fee_bps(), 10_000);
    assert_eq!(env.auths, vec![addr("GADMIN"), addr("GADMIN")]);
}

#[test]
fn record_then_read_back() {
    let mut s = Settlement::new();
    let mut env = Env::new(0);
    s.initialize(&mut env, addr("GADMIN"), 20).unwrap();
    let mut env = Env::new(1_700_000_000);
    let rec = s.record_settlement(&mut env, sym("tx1"), addr("GPAYER"), addr("GPAYEE"), 1000).unwrap();
    let expected = SettlementRecord {
        from: addr("GPAYER"),
        to: addr("GPAYEE"),
        amount: 1000,
        fee: 2,
        timestamp: 1_700_000_000,
    };
    assert_eq!(rec, expected);
    assert_eq!(env.auths, vec![addr("GPAYER")]);
    assert_eq!(s.get_transaction(sym("tx1")), Ok(expected.clone()));
    assert_eq!(
        s.record_settlement(&mut env, sym("tx1"), addr("GX"), addr("GY"), 5),
        Err(Error::AlreadyExists)
    );
    assert_eq!(s.get_transaction(sym("tx1")), Ok(expected));
    assert_eq!(s.get_transaction(sym("tx2")), Err(Error::NotFound));
}

#[test]
fn record_refuses_non_positive_amount_after_auth() {
    let mut s = Settlement::new();
    let mut env = Env::new(0);
    assert_eq!(s.record_settlement(&mut env, sym("tx"), addr("GPAYER"), addr("GPAYEE"), 0), Err(Error::ZeroAmount));
    assert_eq!(s.record_settlement(&mut env, sym("tx"), addr("GPAYER"), addr("GPAYEE"), -3), Err(Error::ZeroAmount));
    assert_eq!(env.auths, vec![addr("GPAYER"), addr("GPAYER")]);
    assert_eq!(s.get_transaction(sym("tx")), Err(Error::NotFound));
}

#[test]
fn uninitialized_contract_records_without_fee() {
    let mut s = Settlement::new();
    let mut env = Env::new(7);
    let rec = s.record_settlement(&mut env, sym("tx"), addr("GA"), addr("GB"), 50_000).unwrap();
    assert_eq!(rec.fee, 0);
    assert_eq!(rec.timestamp, 7);
}

#[test]
fn pause_blocks_record_until_unpause() {
    let mut s = Settlement::new();
    let mut env = Env::new(0);
    s.initialize(&mut env, addr("GADMIN"), 100).unwrap();
    s.pause(&mut env).unwrap();
    let mut env = Env::new(0);
    assert_eq!(s.record_settlement(&mut env, sym("tx"), addr("GA"), addr("GB"), 10), Err(Error::Paused));
    assert!(env.auths.is_empty());
    s.unpause(&mut env).unwrap();
    let rec = s.record_settlement(&mut env, sym("tx"), addr("GA"), addr("GB"), 10_000).unwrap();
    assert_eq!(rec.fee, 100);
}
