//! The Soroban host services that the contracts use: instance storage,
//! ledger time, authorization and calls into other contracts.

use soroban_sdk::IntoVal;
use vstd::prelude::*;

verus! {

/// The contract environment: a handle on the host that runs the contract.
#[verifier::external_type_specification]
#[verifier::external_body]
pub struct ExEnv(soroban_sdk::Env);

/// An account or contract address.
#[verifier::external_type_specification]
#[verifier::external_body]
pub struct ExAddress(soroban_sdk::Address);

/// A string held by the host.
#[verifier::external_type_specification]
#[verifier::external_body]
pub struct ExHostString(soroban_sdk::String);

/// A vector held by the host.
#[verifier::external_type_specification]
#[verifier::external_body]
#[verifier::reject_recursive_types(T)]
pub struct ExHostVec<T>(soroban_sdk::Vec<T>);

/// A value held in the contract's instance storage.
pub enum Stored {
    Flag(bool),
    Addr(soroban_sdk::Address),
    Text(soroban_sdk::String),
}

/// What the instance storage of the contract that `e` runs holds, by key.
pub uninterp spec fn instance_entries(e: soroban_sdk::Env) -> Map<u32, Stored>;

/// The last ledger up to which the instance of the contract that `e` runs
/// stays live.
pub uninterp spec fn instance_live_until(e: soroban_sdk::Env) -> u32;

/// The sequence number of the ledger that `e` runs in.
pub uninterp spec fn ledger_sequence(e: soroban_sdk::Env) -> u32;

/// The furthest ledger up to which the network lets an entry live, for the
/// ledger that `e` runs in.
pub uninterp spec fn max_live_until(e: soroban_sdk::Env) -> u32;

/// Which of the two swaps of the router a call asks for.
#[derive(Clone, Copy, Debug, PartialEq, Eq, Structural)]
pub enum SwapKind {
    /// `swap_exact_tokens_for_tokens`: the first amount is spent exactly.
    ExactTokensForTokens,
    /// `swap_tokens_for_exact_tokens`: the first amount is received exactly.
    TokensForExactTokens,
}

/// What a swap hands to the router at `router`: the two amounts in the
/// router's order, the token path, the recipient and the deadline.
pub struct SwapRequest {
    pub router: soroban_sdk::Address,
    pub first_amount: i128,
    pub second_amount: i128,
    pub path: soroban_sdk::Vec<soroban_sdk::Address>,
    pub to: soroban_sdk::Address,
    pub deadline: u64,
}

/// One thing that the running invocation asked of the host, with what the
/// host answered.
pub enum Interaction {
    /// The invocation required `who`'s authorization, and had it.
    Authorization(soroban_sdk::Address),
    /// The invocation read the ledger's close time.
    LedgerTime(u64),
    /// The invocation called the router; the answer is `None` where the
    /// router failed.
    RouterSwap(SwapKind, SwapRequest, Option<soroban_sdk::Vec<i128>>),
}

/// What the invocation running in `e` has asked of the host so far, in
/// order: authorizations, ledger time reads and router calls.
pub uninterp spec fn interactions(e: soroban_sdk::Env) -> Seq<Interaction>;

/// Whether the invocation running in `e` carries `who`'s authorization of
/// the running contract call, so that requiring it succeeds.
pub uninterp spec fn authorizes(e: soroban_sdk::Env, who: soroban_sdk::Address) -> bool;

/// Whether `a` is the address of a contract (rather than of an account).
pub uninterp spec fn contract_address(a: soroban_sdk::Address) -> bool;

/// `a` and `b` run in the same ledger.
pub open spec fn same_ledger(a: soroban_sdk::Env, b: soroban_sdk::Env) -> bool {
    &&& ledger_sequence(b) == ledger_sequence(a)
    &&& max_live_until(b) == max_live_until(a)
}

/// `b` is `a` with, at most, other instance entries.
pub open spec fn same_but_entries(a: soroban_sdk::Env, b: soroban_sdk::Env) -> bool {
    &&& same_ledger(a, b)
    &&& instance_live_until(b) == instance_live_until(a)
    &&& interactions(b) == interactions(a)
}

/// `b` is `a` with, at most, a later live-until ledger of the instance.
pub open spec fn same_but_live_until(a: soroban_sdk::Env, b: soroban_sdk::Env) -> bool {
    &&& same_ledger(a, b)
    &&& instance_entries(b) == instance_entries(a)
    &&& interactions(b) == interactions(a)
}

/// `b` is `a` after a call into other code (an account's authorization
/// check, another contract): the entries and the ledger are the same; the
/// other code may have extended the instance's life, never shortened it.
pub open spec fn after_outside_call(a: soroban_sdk::Env, b: soroban_sdk::Env) -> bool {
    &&& same_ledger(a, b)
    &&& instance_entries(b) == instance_entries(a)
    &&& instance_live_until(b) >= instance_live_until(a)
}

/// `b` is `a` with, at most, more interactions.
pub open spec fn same_but_interactions(a: soroban_sdk::Env, b: soroban_sdk::Env) -> bool {
    &&& same_ledger(a, b)
    &&& instance_entries(b) == instance_entries(a)
    &&& instance_live_until(b) == instance_live_until(a)
}

/// The contract's instance is live in the ledger it runs in.
pub open spec fn instance_is_live(e: soroban_sdk::Env) -> bool {
    ledger_sequence(e) <= instance_live_until(e)
}

/// The live-until ledger after an extension by `extend_to` ledgers that
/// applies once the time to live is `threshold` ledgers or less: the
/// current ledger plus `extend_to`, at most `max`, where that is later;
/// otherwise it stays.
pub open spec fn extended_live_until(
    live_until: u32,
    sequence: u32,
    max: u32,
    threshold: u32,
    extend_to: u32,
) -> u32 {
    let wanted = if sequence + extend_to > u32::MAX { u32::MAX } else { (sequence + extend_to) as u32 };
    let target = if wanted < max { wanted } else { max };
    if live_until - sequence <= threshold && target > live_until {
        target
    } else {
        live_until
    }
}

/// The flag stored under `key`, if the entry there holds one.
pub open spec fn flag_at(m: Map<u32, Stored>, key: u32) -> Option<bool> {
    match m.get(key) {
        Some(Stored::Flag(b)) => Some(b),
        _ => None,
    }
}

/// The address stored under `key`, if the entry there holds one.
pub open spec fn address_at(m: Map<u32, Stored>, key: u32) -> Option<soroban_sdk::Address> {
    match m.get(key) {
        Some(Stored::Addr(a)) => Some(a),
        _ => None,
    }
}

/// The string stored under `key`, if the entry there holds one.
pub open spec fn text_at(m: Map<u32, Stored>, key: u32) -> Option<soroban_sdk::String> {
    match m.get(key) {
        Some(Stored::Text(s)) => Some(s),
        _ => None,
    }
}

/// The entry under `key`, if any, holds a flag.
pub open spec fn holds_flag_or_nothing(m: Map<u32, Stored>, key: u32) -> bool {
    m.dom().contains(key) ==> m[key] is Flag
}

/// The entry under `key`, if any, holds an address.
pub open spec fn holds_address_or_nothing(m: Map<u32, Stored>, key: u32) -> bool {
    m.dom().contains(key) ==> m[key] is Addr
}

/// The entry under `key`, if any, holds a string.
pub open spec fn holds_text_or_nothing(m: Map<u32, Stored>, key: u32) -> bool {
    m.dom().contains(key) ==> m[key] is Text
}

/// `Instance::has` of soroban-sdk: whether an entry is stored under `key`.
#[verifier::external_body]
pub(crate) fn instance_has(e: &soroban_sdk::Env, key: u32) -> (r: bool)
    ensures
        r == instance_entries(*e).dom().contains(key),
{
    e.storage().instance().has(&key)
}

/// `Instance::get::<_, bool>` of soroban-sdk: the flag stored under `key`,
/// `None` where nothing is stored. The host traps where the entry holds
/// something other than a flag, which `requires` rules out.
#[verifier::external_body]
pub(crate) fn instance_get_flag(e: &soroban_sdk::Env, key: u32) -> (r: Option<bool>)
    requires
        holds_flag_or_nothing(instance_entries(*e), key),
    ensures
        r == flag_at(instance_entries(*e), key),
{
    e.storage().instance().get::<u32, bool>(&key)
}

/// `Instance::get::<_, Address>` of soroban-sdk: the address stored under
/// `key`, `None` where nothing is stored.
#[verifier::external_body]
pub(crate) fn instance_get_address(e: &soroban_sdk::Env, key: u32) -> (r: Option<soroban_sdk::Address>)
    requires
        holds_address_or_nothing(instance_entries(*e), key),
    ensures
        r == address_at(instance_entries(*e), key),
{
    e.storage().instance().get::<u32, soroban_sdk::Address>(&key)
}

/// `Instance::get::<_, String>` of soroban-sdk: the string stored under
/// `key`, `None` where nothing is stored.
#[verifier::external_body]
pub(crate) fn instance_get_text(e: &soroban_sdk::Env, key: u32) -> (r: Option<soroban_sdk::String>)
    requires
        holds_text_or_nothing(instance_entries(*e), key),
    ensures
        r == text_at(instance_entries(*e), key),
{
    e.storage().instance().get::<u32, soroban_sdk::String>(&key)
}

/// `Instance::set` of soroban-sdk with a flag: the entry under `key` becomes
/// `value`; no other entry changes, and nothing else does.
#[verifier::external_body]
pub(crate) fn instance_set_flag(e: &mut soroban_sdk::Env, key: u32, value: bool)
    ensures
        instance_entries(*final(e)) == instance_entries(*old(e)).insert(key, Stored::Flag(value)),
        same_but_entries(*old(e), *final(e)),
{
    e.storage().instance().set(&key, &value)
}

/// `Instance::set` of soroban-sdk with an address.
#[verifier::external_body]
pub(crate) fn instance_set_address(e: &mut soroban_sdk::Env, key: u32, value: &soroban_sdk::Address)
    ensures
        instance_entries(*final(e)) == instance_entries(*old(e)).insert(key, Stored::Addr(*value)),
        same_but_entries(*old(e), *final(e)),
{
    e.storage().instance().set(&key, value)
}

/// `Instance::set` of soroban-sdk with a string.
#[verifier::external_body]
pub(crate) fn instance_set_text(e: &mut soroban_sdk::Env, key: u32, value: &soroban_sdk::String)
    ensures
        instance_entries(*final(e)) == instance_entries(*old(e)).insert(key, Stored::Text(*value)),
        same_but_entries(*old(e), *final(e)),
{
    e.storage().instance().set(&key, value)
}

/// `Instance::extend_ttl` of soroban-sdk: where the instance's time to live
/// is `threshold` ledgers or less, its live-until ledger becomes the current
/// ledger plus `extend_to`, clamped to the network's maximum, if that is
/// later. The host refuses `threshold > extend_to` and an instance that is
/// no longer live, which `requires` rules out. The contract's code entry is
/// extended alike; it is not modelled.
#[verifier::external_body]
pub(crate) fn instance_extend_ttl(e: &mut soroban_sdk::Env, threshold: u32, extend_to: u32)
    requires
        threshold <= extend_to,
        instance_is_live(*old(e)),
    ensures
        instance_live_until(*final(e)) == extended_live_until(
            instance_live_until(*old(e)),
            ledger_sequence(*old(e)),
            max_live_until(*old(e)),
            threshold,
            extend_to,
        ),
        same_but_live_until(*old(e), *final(e)),
        forall|who: soroban_sdk::Address| #[trigger] authorizes(*final(e), who) == authorizes(*old(e), who),
{
    e.storage().instance().extend_ttl(threshold, extend_to)
}

/// `Ledger::timestamp` of soroban-sdk: the close time of the current ledger.
/// Nothing is stated of the value, the network's clock; it is recorded as
/// read, and nothing else changes.
#[verifier::external_body]
pub(crate) fn ledger_timestamp(e: &mut soroban_sdk::Env) -> (r: u64)
    ensures
        interactions(*final(e)) == interactions(*old(e)).push(Interaction::LedgerTime(r)),
        same_but_interactions(*old(e), *final(e)),
{
    e.ledger().timestamp()
}

/// `Address::require_auth` of soroban-sdk: requires `who`'s authorization
/// of the running invocation, and records that it did. The host aborts the
/// whole invocation where the authorization is missing, which `requires`
/// rules out. An account contract checking the authorization may extend the
/// instance's life.
#[verifier::external_body]
pub(crate) fn require_auth(e: &mut soroban_sdk::Env, who: &soroban_sdk::Address)
    requires
        authorizes(*old(e), *who),
    ensures
        interactions(*final(e)) == interactions(*old(e)).push(Interaction::Authorization(*who)),
        after_outside_call(*old(e), *final(e)),
{
    who.require_auth()
}

/// `Address::to_payload` of soroban-sdk: whether `a` is a contract address
/// (its payload is a contract id hash), read from the address's own
/// encoding; nothing else is touched. Accounts and address types that the
/// crate does not know are not contract addresses.
#[verifier::external_body]
pub(crate) fn is_contract_address(a: &soroban_sdk::Address) -> (r: bool)
    ensures
        r == contract_address(*a),
{
    match a.to_payload() {
        Some(soroban_sdk::address_payload::AddressPayload::ContractIdHash(_)) => true,
        Some(soroban_sdk::address_payload::AddressPayload::AccountIdPublicKeyEd25519(_)) => false,
        None => false,
    }
}

/// `Env::try_invoke_contract` of soroban-sdk, calling
/// `swap_exact_tokens_for_tokens(first_amount, second_amount, path, to, deadline)`
/// of the router at the contract address `request.router`: the router's
/// answer where it returns a vector of amounts, `None` where the call fails
/// (the router's changes are then undone) or where its answer is not a
/// vector of amounts (its changes then stand). The host aborts the whole
/// invocation for a router that is not a contract address, which `requires`
/// rules out. What the router answers depends on its own state and is not
/// stated; the call and its answer are recorded. A contract cannot write
/// another contract's storage and cannot be re-entered, so the caller's
/// entries stay as they are; the router may extend the caller's life. An
/// exhausted resource budget still aborts the invocation.
#[verifier::external_body]
pub(crate) fn router_swap_exact_tokens_for_tokens(
    e: &mut soroban_sdk::Env,
    request: &SwapRequest,
) -> (r: Option<soroban_sdk::Vec<i128>>)
    requires
        contract_address(request.router),
    ensures
        interactions(*final(e)) == interactions(*old(e)).push(
            Interaction::RouterSwap(SwapKind::ExactTokensForTokens, *request, r),
        ),
        after_outside_call(*old(e), *final(e)),
{
    let function = soroban_sdk::Symbol::new(e, "swap_exact_tokens_for_tokens");
    let args = (request.first_amount, request.second_amount, request.path.clone(), request.to.clone(), request.deadline).into_val(e);
    match e.try_invoke_contract::<soroban_sdk::Vec<i128>, soroban_sdk::Error>(&request.router, &function, args) {
        Ok(Ok(amounts)) => Some(amounts),
        Ok(Err(_)) => None,
        Err(_) => None,
    }
}

/// `Env::try_invoke_contract` of soroban-sdk, calling
/// `swap_tokens_for_exact_tokens(first_amount, second_amount, path, to, deadline)`
/// of the router at the contract address `request.router`; as for the call
/// above.
#[verifier::external_body]
pub(crate) fn router_swap_tokens_for_exact_tokens(
    e: &mut soroban_sdk::Env,
    request: &SwapRequest,
) -> (r: Option<soroban_sdk::Vec<i128>>)
    requires
        contract_address(request.router),
    ensures
        interactions(*final(e)) == interactions(*old(e)).push(
            Interaction::RouterSwap(SwapKind::TokensForExactTokens, *request, r),
        ),
        after_outside_call(*old(e), *final(e)),
{
    let function = soroban_sdk::Symbol::new(e, "swap_tokens_for_exact_tokens");
    let args = (request.first_amount, request.second_amount, request.path.clone(), request.to.clone(), request.deadline).into_val(e);
    match e.try_invoke_contract::<soroban_sdk::Vec<i128>, soroban_sdk::Error>(&request.router, &function, args) {
        Ok(Ok(amounts)) => Some(amounts),
        Ok(Err(_)) => None,
        Err(_) => None,
    }
}

} // verus!
