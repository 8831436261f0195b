use soroban_sdk::testutils::storage::Instance as _;
use soroban_sdk::testutils::{Address as _, ContractFunctionSet, EnvTestConfig, Ledger as _};
use soroban_sdk::{Address, Env, IntoVal, TryFromVal, Val};
use soroswap_adapters::adapter::{
    check_deadline, check_initialized, check_nonnegative_amount, ensure_deadline,
    SoroswapAggregatorAdapter,
};
use soroswap_adapters::error::AdapterError;

/// A contract with no functions: it gives the tests an instance storage.
struct Holder;

impl ContractFunctionSet for Holder {
    fn call(&self, _func: &str, _env: Env, _args: &[Val]) -> Option<Val> {
        None
    }
}

/// A stand-in for the Soroswap router: both swaps answer with the two
/// amounts they were given, the second one doubled, and the deadline.
struct Router;

impl ContractFunctionSet for Router {
    fn call(&self, func: &str, env: Env, args: &[Val]) -> Option<Val> {
        if func != "swap_exact_tokens_for_tokens" && func != "swap_tokens_for_exact_tokens" {
            return None;
        }
        let first = i128::try_from_val(&env, &args[0]).unwrap();
        let second = i128::try_from_val(&env, &args[1]).unwrap();
        let deadline = u64::try_from_val(&env, &args[4]).unwrap();
        let deadline_amount: i128 = deadline.into();
        let answer = soroban_sdk::Vec::from_array(&env, [first, second * 2, deadline_amount]);
        Some(answer.into_val(&env))
    }
}

/// A router whose every call fails.
struct BrokenRouter;

impl ContractFunctionSet for BrokenRouter {
    fn call(&self, _func: &str, _env: Env, _args: &[Val]) -> Option<Val> {
        None
    }
}

struct Setup {
    env: Env,
    adapter: Address,
    router: Address,
}

fn setup(ledger_time: u64) -> Setup {
    let env = Env::new_with_config(EnvTestConfig {
        capture_snapshot_at_drop: false,
    });
    env.mock_all_auths();
    env.ledger().set_timestamp(ledger_time);
    env.ledger().set_max_entry_ttl(2_000_000);
    let adapter = env.register(Holder, ());
    let router = env.register(Router, ());
    Setup { env, adapter, router }
}

fn run<T>(s: &Setup, f: impl FnOnce(&mut Env) -> T) -> T {
    let mut e = s.env.clone();
    s.env.as_contract(&s.adapter, || f(&mut e))
}

fn protocol_id(s: &Setup) -> soroban_sdk::String {
    soroban_sdk::String::from_str(&s.env, "soroswap")
}

fn path(s: &Setup) -> soroban_sdk::Vec<Address> {
    let a = Address::generate(&s.env);
    let b = Address::generate(&s.env);
    soroban_sdk::Vec::from_array(&s.env, [a, b])
}

#[test]
fn nonnegative_amounts_pass_and_negative_ones_are_refused() {
    assert_eq!(check_nonnegative_amount(0), Ok(()));
    assert_eq!(check_nonnegative_amount(1_000), Ok(()));
    assert_eq!(check_nonnegative_amount(i128::MAX), Ok(()));
    assert_eq!(check_nonnegative_amount(-1), Err(AdapterError::NegativeNotAllowed));
    assert_eq!(check_nonnegative_amount(i128::MIN), Err(AdapterError::NegativeNotAllowed));
}

#[test]
fn deadline_is_met_only_strictly_before_it() {
    assert_eq!(check_deadline(99, 100), Ok(()));
    assert_eq!(check_deadline(100, 100), Err(AdapterError::DeadlineExpired));
    assert_eq!(check_deadline(101, 100), Err(AdapterError::DeadlineExpired));
    assert_eq!(check_deadline(0, 0), Err(AdapterError::DeadlineExpired));
}

#[test]
fn ensure_deadline_reads_the_ledger_time() {
    let s = setup(100);
    run(&s, |e| {
        assert_eq!(ensure_deadline(e, 1000), Ok(()));
        assert_eq!(ensure_deadline(e, 101), Ok(()));
        assert_eq!(ensure_deadline(e, 100), Err(AdapterError::DeadlineExpired));
        assert_eq!(ensure_deadline(e, 50), Err(AdapterError::DeadlineExpired));
    });
}

#[test]
fn fresh_adapter_is_not_initialized() {
    let s = setup(100);
    run(&s, |e| {
        assert_eq!(check_initialized(e), Err(AdapterError::NotInitialized));
        assert_eq!(
            SoroswapAggregatorAdapter::get_protocol_id(e),
            Err(AdapterError::NotInitialized)
        );
        assert_eq!(
            SoroswapAggregatorAdapter::get_protocol_address(e),
            Err(AdapterError::NotInitialized)
        );
    });
}

#[test]
fn initialize_stores_the_protocol_and_happens_once() {
    let s = setup(100);
    let id = protocol_id(&s);
    let router = s.router.clone();
    run(&s, |e| {
        assert_eq!(
            SoroswapAggregatorAdapter::initialize(e, id.clone(), router.clone()),
            Ok(())
        );
        assert_eq!(check_initialized(e), Ok(()));
        assert_eq!(SoroswapAggregatorAdapter::get_protocol_id(e), Ok(id.clone()));
        assert_eq!(SoroswapAggregatorAdapter::get_protocol_address(e), Ok(router.clone()));
        let other_id = soroban_sdk::String::from_str(&s.env, "phoenix");
        let other_address = Address::generate(&s.env);
        assert_eq!(
            SoroswapAggregatorAdapter::initialize(e, other_id, other_address),
            Err(AdapterError::AlreadyInitialized)
        );
        assert_eq!(SoroswapAggregatorAdapter::get_protocol_id(e), Ok(id.clone()));
        assert_eq!(SoroswapAggregatorAdapter::get_protocol_address(e), Ok(router.clone()));
    });
}

#[test]
fn swaps_on_a_fresh_adapter_are_refused() {
    let s = setup(100);
    let p = path(&s);
    let to = Address::generate(&s.env);
    run(&s, |e| {
        assert_eq!(
            SoroswapAggregatorAdapter::swap_exact_tokens_for_tokens(e, 10, 5, p.clone(), to.clone(), 1000),
            Err(AdapterError::NotInitialized)
        );
        assert_eq!(
            SoroswapAggregatorAdapter::swap_tokens_for_exact_tokens(e, -10, 5, p.clone(), to.clone(), 1),
            Err(AdapterError::NotInitialized)
        );
    });
}

#[test]
fn swaps_with_negative_amounts_are_refused() {
    let s = setup(100);
    let id = protocol_id(&s);
    let router = s.router.clone();
    let p = path(&s);
    let to = Address::generate(&s.env);
    run(&s, |e| SoroswapAggregatorAdapter::initialize(e, id, router).unwrap());
    assert_eq!(
        run(&s, |e| SoroswapAggregatorAdapter::swap_exact_tokens_for_tokens(
            e, -1, 5, p.clone(), to.clone(), 1000
        )),
        Err(AdapterError::NegativeNotAllowed)
    );
    assert_eq!(
        run(&s, |e| SoroswapAggregatorAdapter::swap_exact_tokens_for_tokens(
            e, 1, -5, p.clone(), to.clone(), 1000
        )),
        Err(AdapterError::NegativeNotAllowed)
    );
    assert_eq!(
        run(&s, |e| SoroswapAggregatorAdapter::swap_tokens_for_exact_tokens(
            e, -1, 5, p.clone(), to.clone(), 1000
        )),
        Err(AdapterError::NegativeNotAllowed)
    );
    assert_eq!(
        run(&s, |e| SoroswapAggregatorAdapter::swap_tokens_for_exact_tokens(
            e, 1, -5, p.clone(), to.clone(), 1
        )),
        Err(AdapterError::NegativeNotAllowed)
    );
}

#[test]
fn swaps_past_their_deadline_are_refused() {
    let s = setup(100);
    let id = protocol_id(&s);
    let router = s.router.clone();
    let p = path(&s);
    let to = Address::generate(&s.env);
    run(&s, |e| SoroswapAggregatorAdapter::initialize(e, id, router).unwrap());
    assert_eq!(
        run(&s, |e| SoroswapAggregatorAdapter::swap_exact_tokens_for_tokens(
            e, 1, 5, p.clone(), to.clone(), 100
        )),
        Err(AdapterError::DeadlineExpired)
    );
    assert_eq!(
        run(&s, |e| SoroswapAggregatorAdapter::swap_tokens_for_exact_tokens(
            e, 1, 5, p.clone(), to.clone(), 99
        )),
        Err(AdapterError::DeadlineExpired)
    );
}

#[test]
fn swaps_are_forwarded_to_the_router() {
    let s = setup(100);
    let id = protocol_id(&s);
    let router = s.router.clone();
    let p = path(&s);
    let to = Address::generate(&s.env);
    run(&s, |e| SoroswapAggregatorAdapter::initialize(e, id, router).unwrap());
    let exact_in = run(&s, |e| {
        SoroswapAggregatorAdapter::swap_exact_tokens_for_tokens(e, 1_000, 7, p.clone(), to.clone(), 1000)
    })
    .unwrap();
    assert_eq!(exact_in.len(), 3);
    assert_eq!(exact_in.get(0), Some(1_000));
    assert_eq!(exact_in.get(1), Some(14));
    assert_eq!(exact_in.get(2), Some(1000));
    let exact_out = run(&s, |e| {
        SoroswapAggregatorAdapter::swap_tokens_for_exact_tokens(e, 50, 0, p.clone(), to.clone(), 101)
    })
    .unwrap();
    assert_eq!(exact_out.get(0), Some(50));
    assert_eq!(exact_out.get(1), Some(0));
    assert_eq!(exact_out.get(2), Some(101));
}

#[test]
fn swaps_leave_the_adapter_storage_as_it_was() {
    let s = setup(100);
    let id = protocol_id(&s);
    let router = s.router.clone();
    let p = path(&s);
    let to = Address::generate(&s.env);
    run(&s, |e| SoroswapAggregatorAdapter::initialize(e, id.clone(), router.clone()).unwrap());
    run(&s, |e| {
        SoroswapAggregatorAdapter::swap_exact_tokens_for_tokens(e, 3, 1, p.clone(), to.clone(), 1000)
    })
    .unwrap();
    run(&s, |e| {
        assert_eq!(SoroswapAggregatorAdapter::get_protocol_id(e), Ok(id.clone()));
        assert_eq!(SoroswapAggregatorAdapter::get_protocol_address(e), Ok(router.clone()));
    });
}

fn instance_ttl(s: &Setup) -> u32 {
    s.env.as_contract(&s.adapter, || s.env.storage().instance().get_ttl())
}

#[test]
fn initialize_extends_the_instance_life_and_a_refusal_does_not() {
    let s = setup(100);
    let id = protocol_id(&s);
    let router = s.router.clone();
    let before = instance_ttl(&s);
    assert!(before < 501_120);
    run(&s, |e| SoroswapAggregatorAdapter::initialize(e, id.clone(), router.clone()).unwrap());
    assert_eq!(instance_ttl(&s), 518_400);
    s.env.ledger().set_sequence_number(s.env.ledger().sequence() + 30_000);
    let shortened = instance_ttl(&s);
    assert_eq!(shortened, 488_400);
    assert_eq!(
        run(&s, |e| SoroswapAggregatorAdapter::initialize(e, id.clone(), router.clone())),
        Err(AdapterError::AlreadyInitialized)
    );
    assert_eq!(instance_ttl(&s), shortened);
}

#[test]
fn a_swap_extends_the_instance_life_once_it_runs_short() {
    let s = setup(100);
    let id = protocol_id(&s);
    let router = s.router.clone();
    let p = path(&s);
    let to = Address::generate(&s.env);
    run(&s, |e| SoroswapAggregatorAdapter::initialize(e, id, router).unwrap());
    s.env.ledger().set_sequence_number(s.env.ledger().sequence() + 10_000);
    assert_eq!(instance_ttl(&s), 508_400);
    run(&s, |e| {
        SoroswapAggregatorAdapter::swap_exact_tokens_for_tokens(e, 3, 1, p.clone(), to.clone(), 1000)
    })
    .unwrap();
    assert_eq!(instance_ttl(&s), 508_400);
    s.env.ledger().set_sequence_number(s.env.ledger().sequence() + 10_000);
    assert_eq!(instance_ttl(&s), 498_400);
    assert_eq!(
        run(&s, |e| {
            SoroswapAggregatorAdapter::swap_exact_tokens_for_tokens(e, -3, 1, p.clone(), to.clone(), 1000)
        }),
        Err(AdapterError::NegativeNotAllowed)
    );
    assert_eq!(instance_ttl(&s), 518_400);
}

#[test]
fn a_failing_router_is_reported() {
    let s = setup(100);
    let id = protocol_id(&s);
    let broken = s.env.register(BrokenRouter, ());
    let p = path(&s);
    let to = Address::generate(&s.env);
    run(&s, |e| SoroswapAggregatorAdapter::initialize(e, id, broken).unwrap());
    assert_eq!(
        run(&s, |e| {
            SoroswapAggregatorAdapter::swap_exact_tokens_for_tokens(e, 3, 1, p.clone(), to.clone(), 1000)
        }),
        Err(AdapterError::ProtocolSwapFailed)
    );
    assert_eq!(
        run(&s, |e| {
            SoroswapAggregatorAdapter::swap_tokens_for_exact_tokens(e, 3, 1, p.clone(), to.clone(), 1000)
        }),
        Err(AdapterError::ProtocolSwapFailed)
    );
}

#[test]
fn a_swap_requires_the_recipients_authorization() {
    let s = setup(100);
    let id = protocol_id(&s);
    let router = s.router.clone();
    let p = path(&s);
    let to = Address::generate(&s.env);
    run(&s, |e| SoroswapAggregatorAdapter::initialize(e, id, router).unwrap());
    run(&s, |e| {
        SoroswapAggregatorAdapter::swap_exact_tokens_for_tokens(e, 5, 2, p.clone(), to.clone(), 1000)
    })
    .unwrap();
    let auths = s.env.auths();
    assert_eq!(auths.len(), 1);
    assert_eq!(auths[0].0, to);
}

#[test]
fn an_account_as_router_is_refused_without_a_call() {
    let s = setup(100);
    let id = protocol_id(&s);
    let key = soroban_sdk::BytesN::from_array(&s.env, &[7u8; 32]);
    let account = Address::from_payload(
        &s.env,
        soroban_sdk::address_payload::AddressPayload::AccountIdPublicKeyEd25519(key),
    );
    let p = path(&s);
    let to = Address::generate(&s.env);
    run(&s, |e| SoroswapAggregatorAdapter::initialize(e, id, account.clone()).unwrap());
    assert_eq!(
        run(&s, |e| SoroswapAggregatorAdapter::get_protocol_address(e)),
        Ok(account.clone())
    );
    assert_eq!(
        run(&s, |e| {
            SoroswapAggregatorAdapter::swap_exact_tokens_for_tokens(e, 3, 1, p.clone(), to.clone(), 1000)
        }),
        Err(AdapterError::ProtocolSwapFailed)
    );
    assert_eq!(
        run(&s, |e| {
            SoroswapAggregatorAdapter::swap_tokens_for_exact_tokens(e, 3, 1, p.clone(), to.clone(), 1000)
        }),
        Err(AdapterError::ProtocolSwapFailed)
    );
}
