use primar::budget::{BudgetError, Budget, Error, Limit, PAYMENT_SESSION, PAYMENT_TASK, CONTRACT_VERSION};
use primar::host::{Address, Env, Symbol};

fn addr(s: &str) -> Address {
    Address::new(s.to_string())
}

fn sym(s: &str) -> Symbol {
    Symbol::new(s.to_string())
}

#[test]
fn fee_free_check_without_limit_allows() {
    let budget = Budget::new();
    let agent = sym("agent_a");
    assert!(budget.check_limit(agent, 999i128, 0u32).unwrap());
}

#[test]
fn compute_paths_allow_task_without_limit() {
    let budget = Budget::new();
    let agent = sym("agent_b");
    assert!(budget.check_limit(agent, 1i128, 1u32).unwrap());
}

#[test]
fn budget_error_codes_are_distinct() {
    let codes = [
        Error::AlreadyInitialized.code(),
        Error::NotFound.code(),
        Error::Paused.code(),
        Error::InvalidCap.code(),
        Error::InvalidPaymentType.code(),
        BudgetError::OverBudget.code(),
    ];
    assert_eq!(codes, [1, 2, 5, 6, 7, 8]);
}

#[test]
fn no_limit_allows_any_type_but_not_negative_amounts() {
    let budget = Budget::new();
    assert_eq!(budget.check_limit(sym("a"), 0, 42), Ok(true));
    assert_eq!(budget.check_limit(sym("a"), -1, 0), Err(Error::InvalidCap));
    assert_eq!(budget.get_limit(sym("a")), Err(Error::NotFound));
    assert_eq!(budget.assert_within_budget(sym("a"), i128::MAX, 1), Ok(()));
}

#[test]
fn initialize_once() {
    let mut b = Budget::new();
    let mut env = Env::new(0);
    assert_eq!(b.version(), 0);
    assert_eq!(b.initialize(&mut env, addr("GADMIN")), Ok(()));
    assert_eq!(b.version(), CONTRACT_VERSION);
    assert_eq!(b.initialize(&mut env, addr("GOTHER")), Err(Error::AlreadyInitialized));
    assert_eq!(env.auths, vec![addr("GADMIN")]);
}

#[test]
fn set_limit_then_check() {
    let mut b = Budget::new();
    let mut env = Env::new(0);
    assert_eq!(b.set_limit(&mut env, sym("agent"), addr("GOWNER"), 100, 10), Ok(()));
    assert_eq!(env.auths, vec![addr("GOWNER")]);
    assert_eq!(
        b.get_limit(sym("agent")),
        Ok(Limit { owner: addr("GOWNER"), session_cap: 100, task_cap: 10 })
    );
    assert_eq!(b.check_limit(sym("agent"), 100, PAYMENT_SESSION), Ok(true));
    assert_eq!(b.check_limit(sym("agent"), 101, PAYMENT_SESSION), Ok(false));
    assert_eq!(b.check_limit(sym("agent"), 10, PAYMENT_TASK), Ok(true));
    assert_eq!(b.check_limit(sym("agent"), 11, PAYMENT_TASK), Ok(false));
    assert_eq!(b.check_limit(sym("agent"), 1, 2), Err(Error::InvalidPaymentType));
    assert_eq!(b.check_limit(sym("other"), 1_000, PAYMENT_TASK), Ok(true));
    assert_eq!(b.assert_within_budget(sym("agent"), 11, PAYMENT_TASK), Err(Error::OverBudget));
    assert_eq!(b.assert_within_budget(sym("agent"), 9, PAYMENT_TASK), Ok(()));
    assert_eq!(b.assert_within_budget(sym("agent"), -9, PAYMENT_TASK), Err(Error::InvalidCap));
    // a second call replaces the caps
    assert_eq!(b.set_limit(&mut env, sym("agent"), addr("GOWNER2"), 5, 500), Ok(()));
    assert_eq!(b.check_limit(sym("agent"), 100, PAYMENT_SESSION), Ok(false));
    assert_eq!(b.get_limit(sym("agent")).unwrap().owner, addr("GOWNER2"));
}

#[test]
fn negative_caps_refused_after_owner_auth() {
    let mut b = Budget::new();
    let mut env = Env::new(0);
    assert_eq!(b.set_limit(&mut env, sym("agent"), addr("GOWNER"), -1, 10), Err(Error::InvalidCap));
    assert_eq!(b.set_limit(&mut env, sym("agent"), addr("GOWNER"), 1, -10), Err(Error::InvalidCap));
    assert_eq!(env.auths.len(), 2);
    assert_eq!(b.get_limit(sym("agent")), Err(Error::NotFound));
}

#[test]
fn pause_blocks_set_limit() {
    let mut b = Budget::new();
    let mut env = Env::new(0);
    assert_eq!(b.pause(&mut env), Err(Error::NotFound));
    b.initialize(&mut env, addr("GADMIN")).unwrap();
    assert_eq!(b.pause(&mut env), Ok(()));
    let mut env = Env::new(0);
    assert_eq!(b.set_limit(&mut env, sym("agent"), addr("GOWNER"), 1, 1), Err(Error::Paused));
    assert!(env.auths.is_empty());
    // checks still answer while paused
    assert_eq!(b.check_limit(sym("agent"), 1, 0), Ok(true));
    assert_eq!(b.unpause(&mut env), Ok(()));
    assert_eq!(env.auths, vec![addr("GADMIN")]);
    assert_eq!(b.set_limit(&mut env, sym("agent"), addr("GOWNER"), 1, 1), Ok(()));
}
