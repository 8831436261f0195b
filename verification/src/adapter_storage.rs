//! The instance storage of the Soroswap adapter contract: an initialization
//! flag, the protocol's identifier and the protocol's (router's) address.

use crate::error::AdapterError;
use crate::host::{
    address_at, authorizes, extended_live_until, holds_address_or_nothing, holds_flag_or_nothing,
    holds_text_or_nothing, instance_entries, instance_extend_ttl, instance_get_address,
    instance_get_text, instance_has, instance_is_live, instance_live_until, instance_set_address,
    instance_set_flag, instance_set_text, ledger_sequence, max_live_until, same_but_entries,
    same_but_live_until, text_at, Stored,
};
use crate::ttl::{INSTANCE_BUMP_AMOUNT, INSTANCE_LIFETIME_THRESHOLD};
use soroban_sdk::{Address, Env};
use vstd::prelude::*;

verus! {

/// The keys under which the adapter keeps its entries.
#[derive(Clone, Copy, Debug, PartialEq, Eq, Structural)]
pub enum DataKey {
    Initialized,
    ProtocolId,
    ProtocolAddress,
}

impl DataKey {
    /// The storage key of the entry, one per `DataKey`.
    pub open spec fn key(self) -> u32 {
        match self {
            DataKey::Initialized => 0,
            DataKey::ProtocolId => 1,
            DataKey::ProtocolAddress => 2,
        }
    }

    /// The storage key of the entry.
    pub fn code(self) -> (c: u32)
        ensures
            c == self.key(),
    {
        match self {
            DataKey::Initialized => 0,
            DataKey::ProtocolId => 1,
            DataKey::ProtocolAddress => 2,
        }
    }
}

/// Every entry of the adapter holds the kind of value that its key is for.
pub open spec fn well_typed(m: Map<u32, Stored>) -> bool {
    &&& holds_flag_or_nothing(m, DataKey::Initialized.key())
    &&& holds_text_or_nothing(m, DataKey::ProtocolId.key())
    &&& holds_address_or_nothing(m, DataKey::ProtocolAddress.key())
}

/// Whether the adapter has been marked initialized.
pub open spec fn initialized_in(m: Map<u32, Stored>) -> bool {
    m.dom().contains(DataKey::Initialized.key())
}

/// The stored protocol identifier.
pub open spec fn protocol_id_in(m: Map<u32, Stored>) -> Option<soroban_sdk::String> {
    text_at(m, DataKey::ProtocolId.key())
}

/// The stored protocol address.
pub open spec fn protocol_address_in(m: Map<u32, Stored>) -> Option<Address> {
    address_at(m, DataKey::ProtocolAddress.key())
}

/// A value found in storage, or `NotInitialized` where none is.
pub open spec fn found_or_not_initialized<T>(v: Option<T>) -> Result<T, AdapterError> {
    match v {
        Some(x) => Ok(x),
        None => Err(AdapterError::NotInitialized),
    }
}

/// Extends the time to live of the contract instance to
/// `INSTANCE_BUMP_AMOUNT` ledgers once it falls below
/// `INSTANCE_LIFETIME_THRESHOLD` (clamped to the network's maximum); the
/// entries stay as they are.
pub fn extend_instance_ttl(e: &mut Env)
    requires
        instance_is_live(*old(e)),
    ensures
        instance_live_until(*final(e)) == extended_live_until(
            instance_live_until(*old(e)),
            ledger_sequence(*old(e)),
            max_live_until(*old(e)),
            INSTANCE_LIFETIME_THRESHOLD,
            INSTANCE_BUMP_AMOUNT,
        ),
        same_but_live_until(*old(e), *final(e)),
        forall|who: soroban_sdk::Address| #[trigger] authorizes(*final(e), who) == authorizes(*old(e), who),
{
    instance_extend_ttl(e, INSTANCE_LIFETIME_THRESHOLD, INSTANCE_BUMP_AMOUNT);
}

/// Marks the adapter initialized.
pub fn set_initialized(e: &mut Env)
    ensures
        instance_entries(*final(e)) == instance_entries(*old(e)).insert(
            DataKey::Initialized.key(),
            Stored::Flag(true),
        ),
        same_but_entries(*old(e), *final(e)),
{
    instance_set_flag(e, DataKey::Initialized.code(), true);
}

/// Whether the adapter has been marked initialized.
pub fn is_initialized(e: &Env) -> (r: bool)
    ensures
        r == initialized_in(instance_entries(*e)),
{
    instance_has(e, DataKey::Initialized.code())
}

/// Stores the protocol identifier.
pub fn set_protocol_id(e: &mut Env, protocol_id: soroban_sdk::String)
    ensures
        instance_entries(*final(e)) == instance_entries(*old(e)).insert(
            DataKey::ProtocolId.key(),
            Stored::Text(protocol_id),
        ),
        same_but_entries(*old(e), *final(e)),
{
    instance_set_text(e, DataKey::ProtocolId.code(), &protocol_id);
}

/// The stored protocol identifier, `NotInitialized` where none is stored.
pub fn get_protocol_id(e: &Env) -> (r: Result<soroban_sdk::String, AdapterError>)
    requires
        holds_text_or_nothing(instance_entries(*e), DataKey::ProtocolId.key()),
    ensures
        r == found_or_not_initialized(protocol_id_in(instance_entries(*e))),
{
    match instance_get_text(e, DataKey::ProtocolId.code()) {
        Some(id) => Ok(id),
        None => Err(AdapterError::NotInitialized),
    }
}

/// Stores the protocol's address.
pub fn set_protocol_address(e: &mut Env, address: Address)
    ensures
        instance_entries(*final(e)) == instance_entries(*old(e)).insert(
            DataKey::ProtocolAddress.key(),
            Stored::Addr(address),
        ),
        same_but_entries(*old(e), *final(e)),
{
    instance_set_address(e, DataKey::ProtocolAddress.code(), &address);
}

/// The stored protocol address, `NotInitialized` where none is stored.
pub fn get_protocol_address(e: &Env) -> (r: Result<Address, AdapterError>)
    requires
        holds_address_or_nothing(instance_entries(*e), DataKey::ProtocolAddress.key()),
    ensures
        r == found_or_not_initialized(protocol_address_in(instance_entries(*e))),
{
    match instance_get_address(e, DataKey::ProtocolAddress.code()) {
        Some(address) => Ok(address),
        None => Err(AdapterError::NotInitialized),
    }
}

} // verus!
