use primar::host::{Address, Env, Symbol};
use primar::registry::events::{price_updated, registered, status_updated};
use primar::registry::storage;
use primar::registry::{
    require_positive_price, valid_status, Error, Event, Registry, RegistryError, Service, CONTRACT_VERSION,
    INSTANCE_TTL, VERSION,
};

fn addr(s: &str) -> Address {
    Address::new(s.to_string())
}

fn sym(s: &str) -> Symbol {
    Symbol::new(s.to_string())
}

#[test]
fn compute_fee_helpers_are_pure() {
    // Registry does not expose fee math; ensure status constants remain stable.
    assert_eq!(storage::STATUS_ACTIVE, 0);
    assert_eq!(storage::STATUS_PAUSED, 1);
    assert_eq!(storage::STATUS_DEPRECATED, 2);
    assert_eq!(VERSION, 2);
    let _ = sym("svc");
    let _env = Env::new(0);
}

#[test]
fn positive_price_gate() {
    assert!(require_positive_price(1).is_ok());
    assert_eq!(require_positive_price(0), Err(Error::ZeroPrice));
    assert_eq!(require_positive_price(-5), Err(Error::ZeroPrice));
}

#[test]
fn status_validation() {
    assert!(valid_status(0));
    assert!(valid_status(1));
    assert!(valid_status(2));
    assert!(!valid_status(9));
}

#[test]
fn registry_error_codes_are_distinct() {
    assert_eq!(Error::AlreadyInitialized.code(), 1);
    assert_eq!(Error::NotFound.code(), 2);
    assert_eq!(Error::AlreadyExists.code(), 3);
    assert_eq!(Error::Paused.code(), 5);
    assert_eq!(Error::ZeroPrice.code(), 6);
    assert_eq!(RegistryError::InvalidStatus.code(), 7);
}

#[test]
fn event_helpers_publish() {
    let mut env = Env::new(0);
    registered(&mut env, &sym("svc"), &addr("GPROV"), 7);
    price_updated(&mut env, &sym("svc"), 8);
    status_updated(&mut env, &sym("svc"), 1);
    assert_eq!(
        env.events,
        vec![
            Event::Registered { service_id: sym("svc"), provider: addr("GPROV"), price: 7 },
            Event::PriceUpdated { service_id: sym("svc"), price: 8 },
            Event::StatusUpdated { service_id: sym("svc"), status: 1 },
        ]
    );
}

#[test]
fn initialize_once_and_extends_ttl() {
    let mut r = Registry::new();
    let mut env = Env::new(0);
    assert_eq!(r.admin(), None);
    assert!(!r.is_paused());
    assert_eq!(r.version(), 0);
    assert_eq!(r.initialize(&mut env, addr("GADMIN")), Ok(()));
    assert_eq!(r.admin(), Some(addr("GADMIN")));
    assert_eq!(r.version(), CONTRACT_VERSION);
    assert_eq!(env.ttl_extensions, vec![(INSTANCE_TTL, INSTANCE_TTL)]);
    assert_eq!(INSTANCE_TTL, 100_000);
    assert_eq!(r.initialize(&mut env, addr("GOTHER")), Err(Error::AlreadyInitialized));
    assert_eq!(r.admin(), Some(addr("GADMIN")));
    assert_eq!(env.auths, vec![addr("GADMIN")]);
}

#[test]
fn register_then_read() {
    let mut r = Registry::new();
    let mut env = Env::new(0);
    assert_eq!(r.register(&mut env, sym("svc"), addr("GPROV"), 25), Ok(()));
    assert_eq!(env.auths, vec![addr("GPROV")]);
    assert_eq!(
        env.events,
        vec![Event::Registered { service_id: sym("svc"), provider: addr("GPROV"), price: 25 }]
    );
    assert_eq!(r.get_price(sym("svc")), Ok(25));
    assert_eq!(
        r.get_service(sym("svc")),
        Ok(Service { provider: addr("GPROV"), price_per_call: 25, status: storage::STATUS_ACTIVE })
    );
    assert_eq!(r.register(&mut env, sym("svc"), addr("GOTHER"), 30), Err(Error::AlreadyExists));
    assert_eq!(r.get_price(sym("svc")), Ok(25));
    assert_eq!(env.events.len(), 1);
    assert_eq!(r.get_price(sym("none")), Err(Error::NotFound));
    assert_eq!(r.get_service(sym("none")), Err(Error::NotFound));
}

#[test]
fn register_refuses_non_positive_price() {
    let mut r = Registry::new();
    let mut env = Env::new(0);
    assert_eq!(r.register(&mut env, sym("svc"), addr("GPROV"), 0), Err(Error::ZeroPrice));
    assert_eq!(env.auths, vec![addr("GPROV")]);
    assert!(env.events.is_empty());
    assert_eq!(r.get_service(sym("svc")), Err(Error::NotFound));
}

#[test]
fn update_price_demands_provider() {
    let mut r = Registry::new();
    let mut env = Env::new(0);
    r.register(&mut env, sym("svc"), addr("GPROV"), 25).unwrap();
    let mut env = Env::new(0);
    assert_eq!(r.update_price(&mut env, sym("svc"), 0), Err(Error::ZeroPrice));
    assert_eq!(r.update_price(&mut env, sym("nope"), 3), Err(Error::NotFound));
    assert!(env.auths.is_empty());
    assert_eq!(r.update_price(&mut env, sym("svc"), 40), Ok(()));
    assert_eq!(env.auths, vec![addr("GPROV")]);
    assert_eq!(env.events, vec![Event::PriceUpdated { service_id: sym("svc"), price: 40 }]);
    assert_eq!(r.get_price(sym("svc")), Ok(40));
}

#[test]
fn status_gates_price() {
    let mut r = Registry::new();
    let mut env = Env::new(0);
    r.register(&mut env, sym("svc"), addr("GPROV"), 25).unwrap();
    assert_eq!(r.set_status(&mut env, sym("svc"), 9), Err(Error::InvalidStatus));
    assert_eq!(r.set_status(&mut env, sym("nope"), 1), Err(Error::NotFound));
    assert_eq!(r.set_status(&mut env, sym("svc"), storage::STATUS_PAUSED), Ok(()));
    assert_eq!(r.get_price(sym("svc")), Err(Error::Paused));
    assert_eq!(r.set_status(&mut env, sym("svc"), storage::STATUS_DEPRECATED), Ok(()));
    assert_eq!(r.get_price(sym("svc")), Err(Error::Paused));
    assert_eq!(r.update_price(&mut env, sym("svc"), 30), Ok(()));
    assert_eq!(r.get_service(sym("svc")).unwrap().price_per_call, 30);
    assert_eq!(r.set_status(&mut env, sym("svc"), storage::STATUS_ACTIVE), Ok(()));
    assert_eq!(r.get_price(sym("svc")), Ok(30));
}

#[test]
fn pause_blocks_service_calls() {
    let mut r = Registry::new();
    let mut env = Env::new(0);
    r.initialize(&mut env, addr("GADMIN")).unwrap();
    r.register(&mut env, sym("svc"), addr("GPROV"), 25).unwrap();
    assert_eq!(r.pause(&mut env), Ok(()));
    assert!(r.is_paused());
    let mut env = Env::new(0);
    assert_eq!(r.register(&mut env, sym("svc2"), addr("GPROV"), 25), Err(Error::Paused));
    assert_eq!(r.update_price(&mut env, sym("svc"), 1), Err(Error::Paused));
    assert_eq!(r.set_status(&mut env, sym("svc"), 1), Err(Error::Paused));
    assert!(env.auths.is_empty() && env.events.is_empty());
    // reads still answer while paused
    assert_eq!(r.get_price(sym("svc")), Ok(25));
    assert_eq!(r.unpause(&mut env), Ok(()));
    assert!(!r.is_paused());
    assert_eq!(r.register(&mut env, sym("svc2"), addr("GPROV"), 25), Ok(()));
}

#[test]
fn event_topics() {
    let e1 = Event::Registered { service_id: sym("svc"), provider: addr("GPROV"), price: 7 };
    let e2 = Event::PriceUpdated { service_id: sym("svc"), price: 8 };
    let e3 = Event::StatusUpdated { service_id: sym("svc"), status: 1 };
    assert_eq!(e1.topic(), "reg_svc");
    assert_eq!(e2.topic(), "upd_prc");
    assert_eq!(e3.topic(), "upd_st");
}

#[test]
fn unknown_service_price_not_found() {
    // Price reads of an unknown service are refused, whatever the pause state.
    let r = Registry::new();
    assert_eq!(r.get_price(sym("x")), Err(Error::NotFound));
}
