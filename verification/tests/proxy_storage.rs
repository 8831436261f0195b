use soroban_sdk::testutils::storage::Instance as _;
use soroban_sdk::testutils::{Address as _, ContractFunctionSet, EnvTestConfig, Ledger as _};
use soroban_sdk::{Address, Env, Val};
use soroswap_adapters::proxy_storage::{
    extend_instance_ttl, get_admin, get_protocol_address, has_protocol_address, is_initialized,
    is_paused, put_protocol_address, set_admin, set_initialized, set_paused,
};

/// A contract with no functions: it gives the tests an instance storage.
struct Holder;

impl ContractFunctionSet for Holder {
    fn call(&self, _func: &str, _env: Env, _args: &[Val]) -> Option<Val> {
        None
    }
}

fn in_contract<T>(f: impl FnOnce(&Env, &mut Env) -> T) -> T {
    let env = Env::new_with_config(EnvTestConfig {
        capture_snapshot_at_drop: false,
    });
    let id = env.register(Holder, ());
    let mut e = env.clone();
    env.as_contract(&id, || f(&env, &mut e))
}

#[test]
fn fresh_proxy_reads_nothing() {
    in_contract(|_, e| {
        assert!(!is_initialized(e));
        assert!(!has_protocol_address(e));
        assert!(!is_paused(e));
    });
}

#[test]
fn set_initialized_is_read_back() {
    in_contract(|_, e| {
        set_initialized(e);
        assert!(is_initialized(e));
        assert!(!has_protocol_address(e));
        assert!(!is_paused(e));
    });
}

#[test]
fn protocol_address_is_read_back() {
    in_contract(|env, e| {
        let address = Address::generate(env);
        put_protocol_address(e, address.clone());
        assert!(has_protocol_address(e));
        assert_eq!(get_protocol_address(e), address);
        assert!(!is_initialized(e));
    });
}

#[test]
fn admin_is_read_back_and_apart_from_protocol_address() {
    in_contract(|env, e| {
        let admin = Address::generate(env);
        let protocol = Address::generate(env);
        assert_ne!(admin, protocol);
        set_admin(e, admin.clone());
        put_protocol_address(e, protocol.clone());
        assert_eq!(get_admin(e), admin);
        assert_eq!(get_protocol_address(e), protocol);
        let new_admin = Address::generate(env);
        set_admin(e, new_admin.clone());
        assert_eq!(get_admin(e), new_admin);
        assert_eq!(get_protocol_address(e), protocol);
    });
}

#[test]
fn pause_flag_is_read_back() {
    in_contract(|_, e| {
        set_paused(e, true);
        assert!(is_paused(e));
        set_paused(e, false);
        assert!(!is_paused(e));
        set_paused(e, true);
        assert!(is_paused(e));
        assert!(!is_initialized(e));
    });
}

#[test]
fn extending_the_ttl_keeps_the_entries() {
    in_contract(|env, e| {
        let admin = Address::generate(env);
        set_admin(e, admin.clone());
        set_initialized(e);
        extend_instance_ttl(e);
        assert!(is_initialized(e));
        assert_eq!(get_admin(e), admin);
    });
}

#[test]
fn extending_the_ttl_bumps_a_short_life_to_thirty_days() {
    let env = Env::new_with_config(EnvTestConfig {
        capture_snapshot_at_drop: false,
    });
    env.ledger().set_max_entry_ttl(2_000_000);
    let id = env.register(Holder, ());
    let mut e = env.clone();
    let ttl = || env.as_contract(&id, || env.storage().instance().get_ttl());
    assert!(ttl() <= 501_120);
    env.as_contract(&id, || extend_instance_ttl(&mut e));
    assert_eq!(ttl(), 518_400);
    env.as_contract(&id, || extend_instance_ttl(&mut e));
    assert_eq!(ttl(), 518_400);
}
