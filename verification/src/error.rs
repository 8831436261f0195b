//! The errors that the adapter contract reports to its caller.

use vstd::prelude::*;

verus! {

/// Errors that an adapter contract reports to its caller.
#[derive(Clone, Copy, Debug, PartialEq, Eq, Structural)]
pub enum AdapterError {
    /// The adapter has not been initialized yet.
    NotInitialized,
    /// `initialize` was called on an adapter that is already initialized.
    AlreadyInitialized,
    /// An amount argument was negative.
    NegativeNotAllowed,
    /// The ledger time has reached the caller's deadline.
    DeadlineExpired,
    /// The protocol's router failed to carry out the swap, or the stored
    /// router address is not a contract's.
    ProtocolSwapFailed,
}

} // verus!
