//! The instance storage of the Phoenix proxy contract: an initialization
//! flag, the protocol's address, an admin and a pause flag.

use crate::host::{
    address_at, authorizes, extended_live_until, flag_at, holds_address_or_nothing,
    holds_flag_or_nothing, instance_entries, instance_extend_ttl, instance_get_address,
    instance_get_flag, instance_has, instance_is_live, instance_live_until, instance_set_address,
    instance_set_flag, ledger_sequence, max_live_until, same_but_entries, same_but_live_until,
    Stored,
};
use crate::ttl::{INSTANCE_BUMP_AMOUNT, INSTANCE_LIFETIME_THRESHOLD};
use soroban_sdk::{Address, Env};
use vstd::prelude::*;

verus! {

/// The keys under which the proxy keeps its entries.
#[derive(Clone, Copy, Debug, PartialEq, Eq, Structural)]
pub enum DataKey {
    ProtocolAddress,
    Initialized,
    Admin,
    Paused(bool),
}

impl DataKey {
    /// The storage key of the entry, one per `DataKey`.
    pub open spec fn key(self) -> u32 {
        match self {
            DataKey::ProtocolAddress => 0,
            DataKey::Initialized => 1,
            DataKey::Admin => 2,
            DataKey::Paused(false) => 3,
            DataKey::Paused(true) => 4,
        }
    }

    /// The storage key of the entry.
    pub fn code(self) -> (c: u32)
        ensures
            c == self.key(),
    {
        match self {
            DataKey::ProtocolAddress => 0,
            DataKey::Initialized => 1,
            DataKey::Admin => 2,
            DataKey::Paused(false) => 3,
            DataKey::Paused(true) => 4,
        }
    }
}

/// Every entry of the proxy holds the kind of value that its key is for.
pub open spec fn well_typed(m: Map<u32, Stored>) -> bool {
    &&& holds_address_or_nothing(m, DataKey::ProtocolAddress.key())
    &&& holds_flag_or_nothing(m, DataKey::Initialized.key())
    &&& holds_address_or_nothing(m, DataKey::Admin.key())
    &&& holds_flag_or_nothing(m, DataKey::Paused(false).key())
    &&& holds_flag_or_nothing(m, DataKey::Paused(true).key())
}

/// Whether the proxy has been marked initialized.
pub open spec fn initialized_in(m: Map<u32, Stored>) -> bool {
    m.dom().contains(DataKey::Initialized.key())
}

/// Whether a protocol address is stored.
pub open spec fn has_protocol_address_in(m: Map<u32, Stored>) -> bool {
    m.dom().contains(DataKey::ProtocolAddress.key())
}

/// The stored protocol address.
pub open spec fn protocol_address_in(m: Map<u32, Stored>) -> Option<Address> {
    address_at(m, DataKey::ProtocolAddress.key())
}

/// The stored admin.
pub open spec fn admin_in(m: Map<u32, Stored>) -> Option<Address> {
    address_at(m, DataKey::Admin.key())
}

/// The pause flag; `false` where none is stored.
pub open spec fn paused_in(m: Map<u32, Stored>) -> bool {
    match flag_at(m, DataKey::Paused(true).key()) {
        Some(b) => b,
        None => false,
    }
}

/// Extends the time to live of the contract instance to
/// `INSTANCE_BUMP_AMOUNT` ledgers once it falls below
/// `INSTANCE_LIFETIME_THRESHOLD` (clamped to the network's maximum); the
/// entries stay as they are.
pub fn extend_instance_ttl(e: &mut Env)
    requires
        instance_is_live(*old(e)),
    ensures
        instance_live_until(*final(e)) == extended_live_until(
            instance_live_until(*old(e)),
            ledger_sequence(*old(e)),
            max_live_until(*old(e)),
            INSTANCE_LIFETIME_THRESHOLD,
            INSTANCE_BUMP_AMOUNT,
        ),
        same_but_live_until(*old(e), *final(e)),
        forall|who: soroban_sdk::Address| #[trigger] authorizes(*final(e), who) == authorizes(*old(e), who),
{
    instance_extend_ttl(e, INSTANCE_LIFETIME_THRESHOLD, INSTANCE_BUMP_AMOUNT);
}

/// Marks the proxy initialized.
pub fn set_initialized(e: &mut Env)
    ensures
        instance_entries(*final(e)) == instance_entries(*old(e)).insert(
            DataKey::Initialized.key(),
            Stored::Flag(true),
        ),
        same_but_entries(*old(e), *final(e)),
{
    instance_set_flag(e, DataKey::Initialized.code(), true);
}

/// Whether the proxy has been marked initialized.
pub fn is_initialized(e: &Env) -> (r: bool)
    ensures
        r == initialized_in(instance_entries(*e)),
{
    instance_has(e, DataKey::Initialized.code())
}

/// Stores the protocol's address.
pub fn put_protocol_address(e: &mut Env, address: Address)
    ensures
        instance_entries(*final(e)) == instance_entries(*old(e)).insert(
            DataKey::ProtocolAddress.key(),
            Stored::Addr(address),
        ),
        same_but_entries(*old(e), *final(e)),
{
    instance_set_address(e, DataKey::ProtocolAddress.code(), &address);
}

/// Whether a protocol address is stored.
pub fn has_protocol_address(e: &Env) -> (r: bool)
    ensures
        r == has_protocol_address_in(instance_entries(*e)),
{
    instance_has(e, DataKey::ProtocolAddress.code())
}

/// The stored protocol address; one must be stored.
pub fn get_protocol_address(e: &Env) -> (r: Address)
    requires
        protocol_address_in(instance_entries(*e)) is Some,
    ensures
        protocol_address_in(instance_entries(*e)) == Some(r),
{
    instance_get_address(e, DataKey::ProtocolAddress.code()).unwrap()
}

/// Stores the admin's address.
pub fn set_admin(e: &mut Env, address: Address)
    ensures
        instance_entries(*final(e)) == instance_entries(*old(e)).insert(
            DataKey::Admin.key(),
            Stored::Addr(address),
        ),
        same_but_entries(*old(e), *final(e)),
{
    instance_set_address(e, DataKey::Admin.code(), &address);
}

/// The stored admin; one must be stored.
pub fn get_admin(e: &Env) -> (r: Address)
    requires
        admin_in(instance_entries(*e)) is Some,
    ensures
        admin_in(instance_entries(*e)) == Some(r),
{
    instance_get_address(e, DataKey::Admin.code()).unwrap()
}

/// Stores the pause flag.
pub fn set_paused(e: &mut Env, paused: bool)
    ensures
        instance_entries(*final(e)) == instance_entries(*old(e)).insert(
            DataKey::Paused(true).key(),
            Stored::Flag(paused),
        ),
        same_but_entries(*old(e), *final(e)),
{
    instance_set_flag(e, DataKey::Paused(true).code(), paused);
}

/// The pause flag, `false` where none has been stored.
pub fn is_paused(e: &Env) -> (r: bool)
    requires
        holds_flag_or_nothing(instance_entries(*e), DataKey::Paused(true).key()),
    ensures
        r == paused_in(instance_entries(*e)),
{
    match instance_get_flag(e, DataKey::Paused(true).code()) {
        Some(paused) => paused,
        None => false,
    }
}

/// A proxy whose instance storage is empty is not initialized, holds no
/// protocol address and no admin, is not paused, and its storage is well
/// typed.
pub proof fn fresh_storage_reads()
    ensures
        !initialized_in(Map::<u32, Stored>::empty()),
        !has_protocol_address_in(Map::<u32, Stored>::empty()),
        protocol_address_in(Map::<u32, Stored>::empty()) is None,
        admin_in(Map::<u32, Stored>::empty()) is None,
        !paused_in(Map::<u32, Stored>::empty()),
        well_typed(Map::<u32, Stored>::empty()),
{
}

/// Each read gives back what the matching write stored: after
/// `set_initialized` the proxy is initialized, after
/// `put_protocol_address(a)` the protocol address is `a`, after
/// `set_admin(a)` the admin is `a`, after `set_paused(p)` the pause flag is
/// `p`.
pub proof fn reads_return_writes(m: Map<u32, Stored>, a: Address, p: bool)
    ensures
        initialized_in(m.insert(DataKey::Initialized.key(), Stored::Flag(true))),
        has_protocol_address_in(m.insert(DataKey::ProtocolAddress.key(), Stored::Addr(a))),
        protocol_address_in(m.insert(DataKey::ProtocolAddress.key(), Stored::Addr(a))) == Some(a),
        admin_in(m.insert(DataKey::Admin.key(), Stored::Addr(a))) == Some(a),
        paused_in(m.insert(DataKey::Paused(true).key(), Stored::Flag(p))) == p,
{
}

/// Each write leaves what the other reads give unchanged.
pub proof fn writes_are_independent(m: Map<u32, Stored>, a: Address, p: bool)
    ensures
        ({
            let w = m.insert(DataKey::Initialized.key(), Stored::Flag(true));
            &&& has_protocol_address_in(w) == has_protocol_address_in(m)
            &&& protocol_address_in(w) == protocol_address_in(m)
            &&& admin_in(w) == admin_in(m)
            &&& paused_in(w) == paused_in(m)
        }),
        ({
            let w = m.insert(DataKey::ProtocolAddress.key(), Stored::Addr(a));
            &&& initialized_in(w) == initialized_in(m)
            &&& admin_in(w) == admin_in(m)
            &&& paused_in(w) == paused_in(m)
        }),
        ({
            let w = m.insert(DataKey::Admin.key(), Stored::Addr(a));
            &&& initialized_in(w) == initialized_in(m)
            &&& has_protocol_address_in(w) == has_protocol_address_in(m)
            &&& protocol_address_in(w) == protocol_address_in(m)
            &&& paused_in(w) == paused_in(m)
        }),
        ({
            let w = m.insert(DataKey::Paused(true).key(), Stored::Flag(p));
            &&& initialized_in(w) == initialized_in(m)
            &&& has_protocol_address_in(w) == has_protocol_address_in(m)
            &&& protocol_address_in(w) == protocol_address_in(m)
            &&& admin_in(w) == admin_in(m)
        }),
{
}

/// Every write keeps the storage well typed, so `is_paused` can always be
/// called on a proxy whose storage only these functions have written.
pub proof fn writes_keep_well_typed(m: Map<u32, Stored>, a: Address, p: bool)
    requires
        well_typed(m),
    ensures
        well_typed(m.insert(DataKey::Initialized.key(), Stored::Flag(true))),
        well_typed(m.insert(DataKey::ProtocolAddress.key(), Stored::Addr(a))),
        well_typed(m.insert(DataKey::Admin.key(), Stored::Addr(a))),
        well_typed(m.insert(DataKey::Paused(true).key(), Stored::Flag(p))),
{
}

} // verus!
