//! Calls into the protocol behind the adapter: the Soroswap router whose
//! address the adapter stores.

use crate::adapter_storage::{get_protocol_address, protocol_address_in, DataKey};
use crate::error::AdapterError;
use crate::host::{
    after_outside_call, contract_address, holds_address_or_nothing, instance_entries, interactions,
    is_contract_address, router_swap_exact_tokens_for_tokens, router_swap_tokens_for_exact_tokens,
    Interaction, SwapKind, SwapRequest,
};
use soroban_sdk::{Address, Env};
use vstd::prelude::*;

verus! {

/// Builds what a swap hands to the router at `router`.
pub fn swap_request(
    router: Address,
    first_amount: i128,
    second_amount: i128,
    path: soroban_sdk::Vec<Address>,
    to: Address,
    deadline: u64,
) -> (r: SwapRequest)
    ensures
        r == (SwapRequest { router, first_amount, second_amount, path, to, deadline }),
{
    SwapRequest { router, first_amount, second_amount, path, to, deadline }
}

/// The adapter's result for the router's answer: the amounts where the
/// router returned them, `ProtocolSwapFailed` where it failed.
pub open spec fn router_result(
    answer: Option<soroban_sdk::Vec<i128>>,
) -> Result<soroban_sdk::Vec<i128>, AdapterError> {
    match answer {
        Some(amounts) => Ok(amounts),
        None => Err(AdapterError::ProtocolSwapFailed),
    }
}

/// What a protocol swap of kind `kind` does: with no stored router address
/// it answers `NotInitialized`, and where the stored address is not a
/// contract's it answers `ProtocolSwapFailed`, asking nothing of the host
/// in both cases; otherwise it calls the stored router once with exactly
/// these arguments, and hands on the router's answer.
pub open spec fn protocol_swap_done(
    kind: SwapKind,
    before: Env,
    after: Env,
    first_amount: i128,
    second_amount: i128,
    path: soroban_sdk::Vec<Address>,
    to: Address,
    deadline: u64,
    r: Result<soroban_sdk::Vec<i128>, AdapterError>,
) -> bool {
    match protocol_address_in(instance_entries(before)) {
        None => r == Err::<soroban_sdk::Vec<i128>, AdapterError>(AdapterError::NotInitialized)
            && after == before,
        Some(router) => if !contract_address(router) {
            r == Err::<soroban_sdk::Vec<i128>, AdapterError>(AdapterError::ProtocolSwapFailed)
                && after == before
        } else {
            exists|answer: Option<soroban_sdk::Vec<i128>>|
                #![trigger router_result(answer)]
                {
                    &&& interactions(after) == interactions(before).push(
                        Interaction::RouterSwap(
                            kind,
                            SwapRequest { router, first_amount, second_amount, path, to, deadline },
                            answer,
                        ),
                    )
                    &&& r == router_result(answer)
                    &&& after_outside_call(before, after)
                }
        },
    }
}

/// Swaps through the router at the stored protocol address:
/// `swap_exact_tokens_for_tokens(first_amount, second_amount, ..)` or
/// `swap_tokens_for_exact_tokens(first_amount, second_amount, ..)` after
/// `kind`.
pub fn protocol_swap(
    e: &mut Env,
    kind: SwapKind,
    first_amount: i128,
    second_amount: i128,
    path: soroban_sdk::Vec<Address>,
    to: Address,
    deadline: u64,
) -> (r: Result<soroban_sdk::Vec<i128>, AdapterError>)
    requires
        holds_address_or_nothing(instance_entries(*old(e)), DataKey::ProtocolAddress.key()),
    ensures
        protocol_swap_done(kind, *old(e), *final(e), first_amount, second_amount, path, to, deadline, r),
{
    let router = get_protocol_address(e)?;
    if !is_contract_address(&router) {
        return Err(AdapterError::ProtocolSwapFailed);
    }
    let request = swap_request(router, first_amount, second_amount, path, to, deadline);
    let answer = match kind {
        SwapKind::ExactTokensForTokens => router_swap_exact_tokens_for_tokens(e, &request),
        SwapKind::TokensForExactTokens => router_swap_tokens_for_exact_tokens(e, &request),
    };
    let result = match answer {
        Some(amounts) => Ok(amounts),
        None => Err(AdapterError::ProtocolSwapFailed),
    };
    assert(result == router_result(answer));
    result
}

} // verus!
