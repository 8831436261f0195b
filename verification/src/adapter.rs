//! The Soroswap adapter contract: it is initialized once with a protocol
//! identifier and the address of the Soroswap router, and then forwards
//! swaps to that router after checking the caller's arguments.

use crate::adapter_storage::{
    extend_instance_ttl, found_or_not_initialized, initialized_in, is_initialized,
    protocol_address_in, protocol_id_in, set_initialized, set_protocol_address, set_protocol_id,
    well_typed, DataKey,
};
use crate::error::AdapterError;
use crate::host::{
    after_outside_call, authorizes, contract_address, extended_live_until,
    holds_address_or_nothing, holds_text_or_nothing, instance_entries, instance_is_live,
    instance_live_until, interactions, ledger_sequence, ledger_timestamp, max_live_until,
    require_auth, same_but_interactions, same_ledger, Interaction, Stored, SwapKind, SwapRequest,
};
use crate::protocol_interface::{protocol_swap, router_result};
use crate::ttl::{INSTANCE_BUMP_AMOUNT, INSTANCE_LIFETIME_THRESHOLD};
use soroban_sdk::{Address, Env};
use vstd::prelude::*;

verus! {

/// Accepts a non-negative amount and refuses a negative one.
pub fn check_nonnegative_amount(amount: i128) -> (r: Result<(), AdapterError>)
    ensures
        r == (if amount < 0 {
            Err::<(), AdapterError>(AdapterError::NegativeNotAllowed)
        } else {
            Ok::<(), AdapterError>(())
        }),
{
    if amount < 0 {
        Err(AdapterError::NegativeNotAllowed)
    } else {
        Ok(())
    }
}

/// A deadline is met while the ledger time is strictly before it.
pub open spec fn deadline_outcome(ledger_time: u64, deadline: u64) -> Result<(), AdapterError> {
    if ledger_time >= deadline {
        Err(AdapterError::DeadlineExpired)
    } else {
        Ok(())
    }
}

/// Checks `deadline` against the ledger time `ledger_time`.
pub fn check_deadline(ledger_time: u64, deadline: u64) -> (r: Result<(), AdapterError>)
    ensures
        r == deadline_outcome(ledger_time, deadline),
{
    if ledger_time >= deadline {
        Err(AdapterError::DeadlineExpired)
    } else {
        Ok(())
    }
}

/// Checks `timestamp` against the close time of the current ledger, which
/// it reads from the host (and which is recorded as read).
pub fn ensure_deadline(e: &mut Env, timestamp: u64) -> (r: Result<(), AdapterError>)
    ensures
        exists|now: u64|
            {
                &&& interactions(*final(e)) == interactions(*old(e)).push(Interaction::LedgerTime(now))
                &&& r == deadline_outcome(now, timestamp)
            },
        same_but_interactions(*old(e), *final(e)),
{
    let ledger_time = ledger_timestamp(e);
    check_deadline(ledger_time, timestamp)
}

/// `NotInitialized` unless the adapter has been initialized.
pub open spec fn initialized_outcome(m: Map<u32, Stored>) -> Result<(), AdapterError> {
    if initialized_in(m) {
        Ok(())
    } else {
        Err(AdapterError::NotInitialized)
    }
}

/// Refuses with `NotInitialized` unless the adapter has been initialized.
pub fn check_initialized(e: &Env) -> (r: Result<(), AdapterError>)
    ensures
        r == initialized_outcome(instance_entries(*e)),
{
    if is_initialized(e) {
        Ok(())
    } else {
        Err(AdapterError::NotInitialized)
    }
}

/// The instance storage after a first initialization with `protocol_id`
/// and `protocol_address`.
pub open spec fn initialized_with(
    m: Map<u32, Stored>,
    protocol_id: soroban_sdk::String,
    protocol_address: Address,
) -> Map<u32, Stored> {
    m.insert(DataKey::ProtocolId.key(), Stored::Text(protocol_id)).insert(
        DataKey::ProtocolAddress.key(),
        Stored::Addr(protocol_address),
    ).insert(DataKey::Initialized.key(), Stored::Flag(true))
}

/// What `initialize` answers and what the instance storage holds after it:
/// a refusal with the storage unchanged where the adapter is already
/// initialized, otherwise success and the first initialization.
pub open spec fn initialize_outcome(
    m: Map<u32, Stored>,
    protocol_id: soroban_sdk::String,
    protocol_address: Address,
) -> (Result<(), AdapterError>, Map<u32, Stored>) {
    if initialized_in(m) {
        (Err(AdapterError::AlreadyInitialized), m)
    } else {
        (Ok(()), initialized_with(m, protocol_id, protocol_address))
    }
}

/// The instance's live-until ledger after the adapter extends its life.
pub open spec fn extended_instance(e: Env) -> u32 {
    extended_live_until(
        instance_live_until(e),
        ledger_sequence(e),
        max_live_until(e),
        INSTANCE_LIFETIME_THRESHOLD,
        INSTANCE_BUMP_AMOUNT,
    )
}

/// What a swap of kind `kind` asks of the host, in order, and what it
/// answers, given the ledger time `now` that the host reports and the
/// router's answer `answer`: nothing and `NotInitialized` before
/// initialization; then `to`'s authorization, and `NegativeNotAllowed` for
/// a negative amount; then the ledger time, and `DeadlineExpired` once it
/// has reached `deadline`; then, with a router address stored that is a
/// contract's, one call of that router with exactly the swap's arguments,
/// whose answer is handed on (`ProtocolSwapFailed` for any other address).
pub open spec fn swap_trace(
    m: Map<u32, Stored>,
    kind: SwapKind,
    first_amount: i128,
    second_amount: i128,
    path: soroban_sdk::Vec<Address>,
    to: Address,
    deadline: u64,
    now: u64,
    answer: Option<soroban_sdk::Vec<i128>>,
) -> (Seq<Interaction>, Result<soroban_sdk::Vec<i128>, AdapterError>) {
    if !initialized_in(m) {
        (Seq::empty(), Err(AdapterError::NotInitialized))
    } else if first_amount < 0 || second_amount < 0 {
        (seq![Interaction::Authorization(to)], Err(AdapterError::NegativeNotAllowed))
    } else if now >= deadline {
        (
            seq![Interaction::Authorization(to), Interaction::LedgerTime(now)],
            Err(AdapterError::DeadlineExpired),
        )
    } else {
        match protocol_address_in(m) {
            None => (
                seq![Interaction::Authorization(to), Interaction::LedgerTime(now)],
                Err(AdapterError::NotInitialized),
            ),
            Some(router) => if !contract_address(router) {
                (
                    seq![Interaction::Authorization(to), Interaction::LedgerTime(now)],
                    Err(AdapterError::ProtocolSwapFailed),
                )
            } else {
                (
                    seq![
                        Interaction::Authorization(to),
                        Interaction::LedgerTime(now),
                        Interaction::RouterSwap(
                            kind,
                            SwapRequest { router, first_amount, second_amount, path, to, deadline },
                            answer,
                        ),
                    ],
                    router_result(answer),
                )
            },
        }
    }
}

/// A swap passes every check that does not depend on the ledger time, and
/// some ledger time is before its deadline: the stored router address may
/// then be read.
pub open spec fn swap_reaches_router_lookup(
    m: Map<u32, Stored>,
    first_amount: i128,
    second_amount: i128,
    deadline: u64,
) -> bool {
    initialized_in(m) && first_amount >= 0 && second_amount >= 0 && deadline > 0
}

/// What a swap of kind `kind` does to the environment and answers: the
/// interactions of `swap_trace` for the ledger time and router answer that
/// the host gave, the instance entries as they were, and, once
/// initialized, the instance's life extended (an account or the router may
/// extend it further); before initialization nothing changes at all.
pub open spec fn swap_done(
    kind: SwapKind,
    before: Env,
    after: Env,
    first_amount: i128,
    second_amount: i128,
    path: soroban_sdk::Vec<Address>,
    to: Address,
    deadline: u64,
    r: Result<soroban_sdk::Vec<i128>, AdapterError>,
) -> bool {
    &&& exists|now: u64, answer: Option<soroban_sdk::Vec<i128>>|
        #![trigger swap_trace(instance_entries(before), kind, first_amount, second_amount, path, to, deadline, now, answer)]
        {
            let trace = swap_trace(
                instance_entries(before),
                kind,
                first_amount,
                second_amount,
                path,
                to,
                deadline,
                now,
                answer,
            );
            &&& interactions(after) == interactions(before) + trace.0
            &&& r == trace.1
        }
    &&& instance_entries(after) == instance_entries(before)
    &&& same_ledger(before, after)
    &&& !initialized_in(instance_entries(before)) ==> after == before
    &&& initialized_in(instance_entries(before)) ==> instance_live_until(after) >= extended_instance(before)
}

/// The adapter's reading of a stored value: `NotInitialized` before
/// initialization or where the value is missing.
pub open spec fn read_outcome<T>(m: Map<u32, Stored>, v: Option<T>) -> Result<T, AdapterError> {
    if initialized_in(m) {
        found_or_not_initialized(v)
    } else {
        Err(AdapterError::NotInitialized)
    }
}

/// A swap of kind `kind`, with the router's two amounts in its order.
fn swap(
    e: &mut Env,
    kind: SwapKind,
    first_amount: i128,
    second_amount: i128,
    path: soroban_sdk::Vec<Address>,
    to: Address,
    deadline: u64,
) -> (r: Result<soroban_sdk::Vec<i128>, AdapterError>)
    requires
        instance_is_live(*old(e)),
        initialized_in(instance_entries(*old(e))) ==> authorizes(*old(e), to),
        swap_reaches_router_lookup(instance_entries(*old(e)), first_amount, second_amount, deadline)
            ==> holds_address_or_nothing(instance_entries(*old(e)), DataKey::ProtocolAddress.key()),
    ensures
        swap_done(kind, *old(e), *final(e), first_amount, second_amount, path, to, deadline, r),
{
    let ghost e0 = *e;
    let ghost m = instance_entries(*e);
    let ghost path0 = path;
    let ghost to0 = to;
    if let Err(err) = check_initialized(e) {
        proof {
            let trace = swap_trace(m, kind, first_amount, second_amount, path0, to0, deadline, 0, None);
            assert(interactions(*e) =~= interactions(e0) + trace.0);
        }
        return Err(err);
    }
    extend_instance_ttl(e);
    require_auth(e, &to);
    let ghost e2 = *e;
    if first_amount < 0 || second_amount < 0 {
        proof {
            let trace = swap_trace(m, kind, first_amount, second_amount, path0, to0, deadline, 0, None);
            assert(interactions(*e) =~= interactions(e0) + trace.0);
        }
        return Err(AdapterError::NegativeNotAllowed);
    }
    let on_time = ensure_deadline(e, deadline);
    let ghost now = choose|now: u64|
        {
            &&& interactions(*e) == interactions(e2).push(Interaction::LedgerTime(now))
            &&& on_time == deadline_outcome(now, deadline)
        };
    if let Err(err) = on_time {
        proof {
            let trace = swap_trace(m, kind, first_amount, second_amount, path0, to0, deadline, now, None);
            assert(interactions(*e) =~= interactions(e0) + trace.0);
        }
        return Err(err);
    }
    let ghost e3 = *e;
    let swap_result = protocol_swap(e, kind, first_amount, second_amount, path, to, deadline);
    proof {
        match protocol_address_in(m) {
            None => {
                let trace = swap_trace(m, kind, first_amount, second_amount, path0, to0, deadline, now, None);
                assert(interactions(*e) =~= interactions(e0) + trace.0);
            },
            Some(router) => {
                if !contract_address(router) {
                    let trace = swap_trace(m, kind, first_amount, second_amount, path0, to0, deadline, now, None);
                    assert(interactions(*e) =~= interactions(e0) + trace.0);
                } else {
                    let answer = choose|answer: Option<soroban_sdk::Vec<i128>>|
                        {
                            &&& interactions(*e) == interactions(e3).push(
                                Interaction::RouterSwap(
                                    kind,
                                    SwapRequest {
                                        router,
                                        first_amount,
                                        second_amount,
                                        path: path0,
                                        to: to0,
                                        deadline,
                                    },
                                    answer,
                                ),
                            )
                            &&& swap_result == router_result(answer)
                            &&& after_outside_call(e3, *e)
                        };
                    let trace = swap_trace(m, kind, first_amount, second_amount, path0, to0, deadline, now, answer);
                    assert(interactions(*e) =~= interactions(e0) + trace.0);
                }
            },
        }
    }
    swap_result
}

/// The Soroswap adapter contract.
pub struct SoroswapAggregatorAdapter;

impl SoroswapAggregatorAdapter {
    /// Initializes the adapter with the protocol's identifier and the
    /// address of its router, and extends the instance's life; refused with
    /// `AlreadyInitialized`, and nothing changed, where the adapter is
    /// already initialized. It requires no authorization.
    pub fn initialize(
        e: &mut Env,
        protocol_id: soroban_sdk::String,
        protocol_address: Address,
    ) -> (r: Result<(), AdapterError>)
        requires
            instance_is_live(*old(e)),
        ensures
            (r, instance_entries(*final(e))) == initialize_outcome(
                instance_entries(*old(e)),
                protocol_id,
                protocol_address,
            ),
            initialized_in(instance_entries(*old(e))) ==> *final(e) == *old(e),
            !initialized_in(instance_entries(*old(e))) ==> {
                &&& instance_live_until(*final(e)) == extended_instance(*old(e))
                &&& interactions(*final(e)) == interactions(*old(e))
                &&& same_ledger(*old(e), *final(e))
            },
    {
        if is_initialized(e) {
            return Err(AdapterError::AlreadyInitialized);
        }
        set_protocol_id(e, protocol_id);
        set_protocol_address(e, protocol_address);
        set_initialized(e);
        extend_instance_ttl(e);
        Ok(())
    }

    /// Swaps exactly `amount_in` of the first token of `path` for at least
    /// `amount_out_min` of the last one through the stored router, for `to`,
    /// whose authorization the invocation must carry. See `swap_trace` for
    /// the refusals and their order.
    pub fn swap_exact_tokens_for_tokens(
        e: &mut Env,
        amount_in: i128,
        amount_out_min: i128,
        path: soroban_sdk::Vec<Address>,
        to: Address,
        deadline: u64,
    ) -> (r: Result<soroban_sdk::Vec<i128>, AdapterError>)
        requires
            instance_is_live(*old(e)),
            initialized_in(instance_entries(*old(e))) ==> authorizes(*old(e), to),
            swap_reaches_router_lookup(instance_entries(*old(e)), amount_in, amount_out_min, deadline)
                ==> holds_address_or_nothing(instance_entries(*old(e)), DataKey::ProtocolAddress.key()),
        ensures
            swap_done(SwapKind::ExactTokensForTokens, *old(e), *final(e), amount_in, amount_out_min, path, to, deadline, r),
    {
        swap(e, SwapKind::ExactTokensForTokens, amount_in, amount_out_min, path, to, deadline)
    }

    /// Swaps at most `amount_in_max` of the first token of `path` for exactly
    /// `amount_out` of the last one through the stored router, for `to`,
    /// whose authorization the invocation must carry. See `swap_trace`.
    pub fn swap_tokens_for_exact_tokens(
        e: &mut Env,
        amount_out: i128,
        amount_in_max: i128,
        path: soroban_sdk::Vec<Address>,
        to: Address,
        deadline: u64,
    ) -> (r: Result<soroban_sdk::Vec<i128>, AdapterError>)
        requires
            instance_is_live(*old(e)),
            initialized_in(instance_entries(*old(e))) ==> authorizes(*old(e), to),
            swap_reaches_router_lookup(instance_entries(*old(e)), amount_out, amount_in_max, deadline)
                ==> holds_address_or_nothing(instance_entries(*old(e)), DataKey::ProtocolAddress.key()),
        ensures
            swap_done(SwapKind::TokensForExactTokens, *old(e), *final(e), amount_out, amount_in_max, path, to, deadline, r),
    {
        swap(e, SwapKind::TokensForExactTokens, amount_out, amount_in_max, path, to, deadline)
    }

    /// The protocol identifier the adapter was initialized with;
    /// `NotInitialized` before initialization.
    pub fn get_protocol_id(e: &Env) -> (r: Result<soroban_sdk::String, AdapterError>)
        requires
            initialized_in(instance_entries(*e)) ==> holds_text_or_nothing(
                instance_entries(*e),
                DataKey::ProtocolId.key(),
            ),
        ensures
            r == read_outcome(instance_entries(*e), protocol_id_in(instance_entries(*e))),
    {
        check_initialized(e)?;
        Ok(crate::adapter_storage::get_protocol_id(e)?)
    }

    /// The router address the adapter was initialized with;
    /// `NotInitialized` before initialization.
    pub fn get_protocol_address(e: &Env) -> (r: Result<Address, AdapterError>)
        requires
            initialized_in(instance_entries(*e)) ==> holds_address_or_nothing(
                instance_entries(*e),
                DataKey::ProtocolAddress.key(),
            ),
        ensures
            r == read_outcome(instance_entries(*e), protocol_address_in(instance_entries(*e))),
    {
        check_initialized(e)?;
        Ok(crate::adapter_storage::get_protocol_address(e)?)
    }
}

/// Once initialized, the adapter holds both the protocol identifier and the
/// router address.
pub open spec fn consistent(m: Map<u32, Stored>) -> bool {
    initialized_in(m) ==> protocol_id_in(m) is Some && protocol_address_in(m) is Some
}

/// An adapter with empty storage refuses every read and every swap with
/// `NotInitialized`, asking nothing of the host, and its storage is well
/// typed and consistent.
pub proof fn fresh_adapter_refuses(
    kind: SwapKind,
    first_amount: i128,
    second_amount: i128,
    path: soroban_sdk::Vec<Address>,
    to: Address,
    deadline: u64,
    now: u64,
    answer: Option<soroban_sdk::Vec<i128>>,
)
    ensures
        read_outcome(
            Map::<u32, Stored>::empty(),
            protocol_id_in(Map::<u32, Stored>::empty()),
        ) == Err::<soroban_sdk::String, AdapterError>(AdapterError::NotInitialized),
        read_outcome(
            Map::<u32, Stored>::empty(),
            protocol_address_in(Map::<u32, Stored>::empty()),
        ) == Err::<Address, AdapterError>(AdapterError::NotInitialized),
        swap_trace(
            Map::<u32, Stored>::empty(),
            kind,
            first_amount,
            second_amount,
            path,
            to,
            deadline,
            now,
            answer,
        ) == (
            Seq::<Interaction>::empty(),
            Err::<soroban_sdk::Vec<i128>, AdapterError>(AdapterError::NotInitialized),
        ),
        well_typed(Map::<u32, Stored>::empty()),
        consistent(Map::<u32, Stored>::empty()),
{
}

/// An adapter is initialized at most once: after a successful
/// `initialize`, any further `initialize`, with whatever arguments, is
/// refused with `AlreadyInitialized` and leaves the storage as it is.
pub proof fn initialization_happens_once(
    m: Map<u32, Stored>,
    first_id: soroban_sdk::String,
    first_address: Address,
    second_id: soroban_sdk::String,
    second_address: Address,
)
    requires
        initialize_outcome(m, first_id, first_address).0 is Ok,
    ensures
        initialize_outcome(initialize_outcome(m, first_id, first_address).1, second_id, second_address)
            == (
                Err::<(), AdapterError>(AdapterError::AlreadyInitialized),
                initialize_outcome(m, first_id, first_address).1,
            ),
{
}

/// After a first initialization the adapter is initialized, reads give
/// back the identifier and the router address it was initialized with, and
/// the storage stays well typed and is consistent.
pub proof fn initialization_is_read_back(
    m: Map<u32, Stored>,
    protocol_id: soroban_sdk::String,
    protocol_address: Address,
)
    ensures
        initialized_in(initialized_with(m, protocol_id, protocol_address)),
        read_outcome(
            initialized_with(m, protocol_id, protocol_address),
            protocol_id_in(initialized_with(m, protocol_id, protocol_address)),
        ) == Ok::<soroban_sdk::String, AdapterError>(protocol_id),
        read_outcome(
            initialized_with(m, protocol_id, protocol_address),
            protocol_address_in(initialized_with(m, protocol_id, protocol_address)),
        ) == Ok::<Address, AdapterError>(protocol_address),
        well_typed(m) ==> well_typed(initialized_with(m, protocol_id, protocol_address)),
        consistent(initialized_with(m, protocol_id, protocol_address)),
{
}

/// After initialization, a swap with non-negative amounts made before its
/// deadline requires `to`'s authorization, reads the ledger time, calls the
/// router the adapter was initialized with once, with exactly the swap's
/// arguments, and answers what the router answered.
pub proof fn swaps_go_to_the_configured_router(
    m: Map<u32, Stored>,
    protocol_id: soroban_sdk::String,
    protocol_address: Address,
    kind: SwapKind,
    first_amount: i128,
    second_amount: i128,
    path: soroban_sdk::Vec<Address>,
    to: Address,
    deadline: u64,
    now: u64,
    answer: Option<soroban_sdk::Vec<i128>>,
)
    requires
        contract_address(protocol_address),
        first_amount >= 0,
        second_amount >= 0,
        now < deadline,
    ensures
        swap_trace(
            initialized_with(m, protocol_id, protocol_address),
            kind,
            first_amount,
            second_amount,
            path,
            to,
            deadline,
            now,
            answer,
        ) == (
            seq![
                Interaction::Authorization(to),
                Interaction::LedgerTime(now),
                Interaction::RouterSwap(
                    kind,
                    SwapRequest {
                        router: protocol_address,
                        first_amount,
                        second_amount,
                        path,
                        to,
                        deadline,
                    },
                    answer,
                ),
            ],
            router_result(answer),
        ),
{
}

/// A swap refused by the adapter's own checks calls no router, and on an
/// initialized adapter the first thing a swap asks of the host is `to`'s
/// authorization.
pub proof fn refusals_call_no_router(
    m: Map<u32, Stored>,
    kind: SwapKind,
    first_amount: i128,
    second_amount: i128,
    path: soroban_sdk::Vec<Address>,
    to: Address,
    deadline: u64,
    now: u64,
    answer: Option<soroban_sdk::Vec<i128>>,
)
    ensures
        ({
            let trace = swap_trace(m, kind, first_amount, second_amount, path, to, deadline, now, answer);
            &&& trace.1 is Err && trace.1 != Err::<soroban_sdk::Vec<i128>, AdapterError>(
                AdapterError::ProtocolSwapFailed,
            ) ==> forall|i: int| 0 <= i < trace.0.len() ==> !(#[trigger] trace.0[i] is RouterSwap)
            &&& initialized_in(m) ==> trace.0.len() > 0 && trace.0[0] == Interaction::Authorization(to)
        }),
{
}

/// Each of the adapter's own checks refuses a swap with its own error, in
/// this order, and nothing after it is asked of the host: before
/// initialization `NotInitialized` with nothing asked; a negative amount
/// `NegativeNotAllowed` after `to`'s authorization; a ledger time at or past
/// the deadline `DeadlineExpired` after the authorization and the time read.
pub proof fn swap_checks_refuse_in_order(
    m: Map<u32, Stored>,
    kind: SwapKind,
    first_amount: i128,
    second_amount: i128,
    path: soroban_sdk::Vec<Address>,
    to: Address,
    deadline: u64,
    now: u64,
    answer: Option<soroban_sdk::Vec<i128>>,
)
    ensures
        ({
            let trace = swap_trace(m, kind, first_amount, second_amount, path, to, deadline, now, answer);
            &&& !initialized_in(m) ==> trace.0 =~= Seq::<Interaction>::empty() && trace.1
                == Err::<soroban_sdk::Vec<i128>, AdapterError>(AdapterError::NotInitialized)
            &&& initialized_in(m) && (first_amount < 0 || second_amount < 0) ==> trace.0
                =~= seq![Interaction::Authorization(to)] && trace.1
                == Err::<soroban_sdk::Vec<i128>, AdapterError>(AdapterError::NegativeNotAllowed)
            &&& initialized_in(m) && first_amount >= 0 && second_amount >= 0 && now >= deadline
                ==> trace.0 =~= seq![Interaction::Authorization(to), Interaction::LedgerTime(now)]
                && trace.1 == Err::<soroban_sdk::Vec<i128>, AdapterError>(
                AdapterError::DeadlineExpired,
            )
        }),
{
}

/// A swap reaches the router only when every check has passed: the adapter
/// is initialized, both amounts are non-negative, the ledger time is
/// strictly before the deadline, and the stored router address is a
/// contract's; the router is then called once, at that address, with exactly
/// the swap's arguments. A swap that succeeds has reached the router and
/// answers the amounts it returned.
pub proof fn router_is_reached_only_past_every_check(
    m: Map<u32, Stored>,
    kind: SwapKind,
    first_amount: i128,
    second_amount: i128,
    path: soroban_sdk::Vec<Address>,
    to: Address,
    deadline: u64,
    now: u64,
    answer: Option<soroban_sdk::Vec<i128>>,
)
    ensures
        ({
            let trace = swap_trace(m, kind, first_amount, second_amount, path, to, deadline, now, answer);
            &&& forall|i: int|
                0 <= i < trace.0.len() && (#[trigger] trace.0[i] is RouterSwap) ==> {
                    &&& initialized_in(m)
                    &&& first_amount >= 0 && second_amount >= 0
                    &&& now < deadline
                    &&& i == 2 && trace.0.len() == 3
                    &&& protocol_address_in(m) is Some
                    &&& contract_address(protocol_address_in(m).unwrap())
                    &&& trace.0[i] == Interaction::RouterSwap(
                        kind,
                        SwapRequest {
                            router: protocol_address_in(m).unwrap(),
                            first_amount,
                            second_amount,
                            path,
                            to,
                            deadline,
                        },
                        answer,
                    )
                }
            &&& trace.1 is Ok ==> {
                &&& trace.0.len() == 3 && trace.0[2] is RouterSwap
                &&& now < deadline
                &&& answer == Some(trace.1->Ok_0)
            }
            &&& trace.0.len() == 3 && answer is None ==> trace.1
                == Err::<soroban_sdk::Vec<i128>, AdapterError>(AdapterError::ProtocolSwapFailed)
        }),
{
    let trace = swap_trace(m, kind, first_amount, second_amount, path, to, deadline, now, answer);
    assert forall|i: int|
        0 <= i < trace.0.len() && (#[trigger] trace.0[i] is RouterSwap) implies {
            &&& initialized_in(m)
            &&& first_amount >= 0 && second_amount >= 0
            &&& now < deadline
            &&& i == 2 && trace.0.len() == 3
            &&& protocol_address_in(m) is Some
            &&& contract_address(protocol_address_in(m).unwrap())
            &&& trace.0[i] == Interaction::RouterSwap(
                kind,
                SwapRequest {
                    router: protocol_address_in(m).unwrap(),
                    first_amount,
                    second_amount,
                    path,
                    to,
                    deadline,
                },
                answer,
            )
        } by {
    }
}

/// A swap that the adapter answers with success was made strictly before its
/// deadline: the ledger time it read, right after `to`'s authorization, is
/// below the deadline, and the router was called after it.
pub proof fn accepted_swaps_met_their_deadline(
    kind: SwapKind,
    before: Env,
    after: Env,
    first_amount: i128,
    second_amount: i128,
    path: soroban_sdk::Vec<Address>,
    to: Address,
    deadline: u64,
    r: Result<soroban_sdk::Vec<i128>, AdapterError>,
)
    requires
        swap_done(kind, before, after, first_amount, second_amount, path, to, deadline, r),
        r is Ok,
    ensures
        interactions(after).len() == interactions(before).len() + 3,
        interactions(after)[interactions(before).len() as int] == Interaction::Authorization(to),
        interactions(after)[interactions(before).len() as int + 1] is LedgerTime,
        interactions(after)[interactions(before).len() as int + 1]->LedgerTime_0 < deadline,
        interactions(after)[interactions(before).len() as int + 2] is RouterSwap,
{
    let (now, answer) = choose|now: u64, answer: Option<soroban_sdk::Vec<i128>>|
        #![trigger swap_trace(instance_entries(before), kind, first_amount, second_amount, path, to, deadline, now, answer)]
        {
            let trace = swap_trace(
                instance_entries(before),
                kind,
                first_amount,
                second_amount,
                path,
                to,
                deadline,
                now,
                answer,
            );
            &&& interactions(after) == interactions(before) + trace.0
            &&& r == trace.1
        };
    let trace = swap_trace(
        instance_entries(before),
        kind,
        first_amount,
        second_amount,
        path,
        to,
        deadline,
        now,
        answer,
    );
    router_is_reached_only_past_every_check(
        instance_entries(before),
        kind,
        first_amount,
        second_amount,
        path,
        to,
        deadline,
        now,
        answer,
    );
    let n = interactions(before).len() as int;
    assert(interactions(after)[n] == trace.0[0]);
    assert(interactions(after)[n + 1] == trace.0[1]);
    assert(interactions(after)[n + 2] == trace.0[2]);
}

/// A deadline is met exactly while the ledger time is strictly before it,
/// and a missed one is answered with `DeadlineExpired`; the initialization
/// check passes exactly on an initialized adapter and otherwise answers
/// `NotInitialized`.
pub proof fn check_outcomes(ledger_time: u64, deadline: u64, m: Map<u32, Stored>)
    ensures
        deadline_outcome(ledger_time, deadline) is Ok <==> ledger_time < deadline,
        deadline_outcome(ledger_time, deadline) is Err ==> deadline_outcome(ledger_time, deadline)
            == Err::<(), AdapterError>(AdapterError::DeadlineExpired),
        initialized_outcome(m) is Ok <==> initialized_in(m),
        initialized_outcome(m) is Err ==> initialized_outcome(m) == Err::<(), AdapterError>(
            AdapterError::NotInitialized,
        ),
{
}

/// A read of the adapter answers the stored value once the adapter is
/// initialized and the value is there, and `NotInitialized` otherwise.
pub proof fn reads_answer_what_is_stored(m: Map<u32, Stored>, v: Option<Address>)
    ensures
        initialized_in(m) && v is Some ==> read_outcome(m, v) == Ok::<Address, AdapterError>(
            v.unwrap(),
        ),
        !initialized_in(m) || v is None ==> read_outcome(m, v) == Err::<Address, AdapterError>(
            AdapterError::NotInitialized,
        ),
{
}

/// The adapter's extension never shortens the instance's life; once the
/// time to live is at most the threshold, the instance then lives until at
/// least the current ledger plus the bump, or the network's maximum where
/// that comes first.
pub proof fn adapter_extension_keeps_the_instance_alive(e: Env)
    requires
        instance_is_live(e),
    ensures
        extended_instance(e) >= instance_live_until(e),
        instance_live_until(e) - ledger_sequence(e) <= INSTANCE_LIFETIME_THRESHOLD
            ==> extended_instance(e) >= ledger_sequence(e) + INSTANCE_BUMP_AMOUNT
            || extended_instance(e) >= max_live_until(e),
{
}

/// In a consistent adapter `NotInitialized` means exactly that the adapter
/// has not been initialized: reads succeed once it is, and no swap answers
/// `NotInitialized` then.
pub proof fn initialized_adapter_serves(
    m: Map<u32, Stored>,
    kind: SwapKind,
    first_amount: i128,
    second_amount: i128,
    path: soroban_sdk::Vec<Address>,
    to: Address,
    deadline: u64,
    now: u64,
    answer: Option<soroban_sdk::Vec<i128>>,
)
    requires
        consistent(m),
        initialized_in(m),
    ensures
        read_outcome(m, protocol_id_in(m)) is Ok,
        read_outcome(m, protocol_address_in(m)) is Ok,
        swap_trace(m, kind, first_amount, second_amount, path, to, deadline, now, answer).1
            != Err::<soroban_sdk::Vec<i128>, AdapterError>(AdapterError::NotInitialized),
{
}

/// Well-typed storage, which `initialize` keeps, meets what the reads and
/// the swaps require of it: they are callable on any adapter whose storage
/// only this contract has written.
pub proof fn well_typed_storage_serves_every_call(
    m: Map<u32, Stored>,
    first_amount: i128,
    second_amount: i128,
    deadline: u64,
)
    requires
        well_typed(m),
    ensures
        holds_text_or_nothing(m, DataKey::ProtocolId.key()),
        holds_address_or_nothing(m, DataKey::ProtocolAddress.key()),
        swap_reaches_router_lookup(m, first_amount, second_amount, deadline)
            ==> holds_address_or_nothing(m, DataKey::ProtocolAddress.key()),
{
}

/// A call of the adapter's interface, with its arguments.
pub enum AdapterCall {
    Initialize(soroban_sdk::String, Address),
    Swap(SwapKind, i128, i128, soroban_sdk::Vec<Address>, Address, u64),
    GetProtocolId,
    GetProtocolAddress,
}

/// What the contract of the function that makes `call` states of the
/// environment before and after it: the storage that `initialize_outcome`
/// gives for `initialize`; `swap_done` for a swap, whatever it answered;
/// nothing changed for a read, which only borrows the environment.
pub open spec fn call_contract_holds(call: AdapterCall, before: Env, after: Env) -> bool {
    match call {
        AdapterCall::Initialize(protocol_id, protocol_address) => instance_entries(after)
            == initialize_outcome(instance_entries(before), protocol_id, protocol_address).1,
        AdapterCall::Swap(kind, first_amount, second_amount, path, to, deadline) => exists|
            r: Result<soroban_sdk::Vec<i128>, AdapterError>,
        |
            #[trigger] swap_done(kind, before, after, first_amount, second_amount, path, to, deadline, r),
        AdapterCall::GetProtocolId => after == before,
        AdapterCall::GetProtocolAddress => after == before,
    }
}

/// Once the adapter is initialized, no sequence of calls changes its
/// storage: where each call `calls[i]` leads from `envs[i]` to
/// `envs[i + 1]` as its function's contract states, every environment holds
/// the entries of the first, so the adapter stays initialized, with the same
/// protocol identifier and router address.
pub proof fn initialized_storage_is_settled(envs: Seq<Env>, calls: Seq<AdapterCall>)
    requires
        envs.len() == calls.len() + 1,
        initialized_in(instance_entries(envs[0])),
        forall|i: int|
            0 <= i < calls.len() ==> #[trigger] call_contract_holds(calls[i], envs[i], envs[i + 1]),
    ensures
        forall|i: int|
            0 <= i < envs.len() ==> #[trigger] instance_entries(envs[i]) == instance_entries(envs[0]),
    decreases calls.len(),
{
    if calls.len() > 0 {
        let n = calls.len() - 1;
        let first_envs = envs.take(n + 1);
        let first_calls = calls.take(n);
        assert forall|i: int| 0 <= i < first_calls.len() implies #[trigger] call_contract_holds(
            first_calls[i],
            first_envs[i],
            first_envs[i + 1],
        ) by {
            assert(call_contract_holds(calls[i], envs[i], envs[i + 1]));
        }
        initialized_storage_is_settled(first_envs, first_calls);
        assert(instance_entries(first_envs[n]) == instance_entries(first_envs[0]));
        assert(call_contract_holds(calls[n], envs[n], envs[n + 1]));
        assert forall|i: int| 0 <= i < envs.len() implies #[trigger] instance_entries(envs[i])
            == instance_entries(envs[0]) by {
            if i < n + 1 {
                assert(instance_entries(first_envs[i]) == instance_entries(first_envs[0]));
            }
        }
    }
}

/// Extending the instance's life never shortens it, and where the time to
/// live is at most the threshold the instance then lives at least until the
/// current ledger plus the bump, clamped to the network's maximum.
pub proof fn extension_never_shortens_life(live_until: u32, sequence: u32, max: u32)
    requires
        sequence <= live_until,
    ensures
        extended_live_until(live_until, sequence, max, INSTANCE_LIFETIME_THRESHOLD, INSTANCE_BUMP_AMOUNT)
            >= live_until,
        live_until - sequence <= INSTANCE_LIFETIME_THRESHOLD ==> extended_live_until(
            live_until,
            sequence,
            max,
            INSTANCE_LIFETIME_THRESHOLD,
            INSTANCE_BUMP_AMOUNT,
        ) == if max > live_until {
            if sequence + INSTANCE_BUMP_AMOUNT <= u32::MAX && sequence + INSTANCE_BUMP_AMOUNT < max {
                (sequence + INSTANCE_BUMP_AMOUNT) as u32
            } else {
                max
            }
        } else {
            live_until
        },
{
}

} // verus!
