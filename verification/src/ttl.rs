//! How long the contracts keep their instance alive on the ledger.

use vstd::prelude::*;

verus! {

/// Ledgers closed in one day, at about five seconds per ledger.
pub const DAY_IN_LEDGERS: u32 = 17280;

/// The time to live, in ledgers, that an extension gives the instance.
pub const INSTANCE_BUMP_AMOUNT: u32 = 30 * DAY_IN_LEDGERS;

/// Below this time to live, in ledgers, the instance is extended.
pub const INSTANCE_LIFETIME_THRESHOLD: u32 = INSTANCE_BUMP_AMOUNT - DAY_IN_LEDGERS;

} // verus!
