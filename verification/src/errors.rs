use vstd::prelude::*;

verus! {

/// The domain error codes of the settlement state machine.
#[derive(Clone, Copy, Debug, PartialEq, Eq, Structural)]
pub enum ErrorCode {
    /// The item's sale window has closed: `now > expiry_ts`.
    InvoiceExpired,
    /// No stock is left: `remaining == 0`.
    ItemSoldOut,
    /// Decrementing a counter would take it below zero.
    UnderflowError,
    /// Incrementing a counter would wrap around.
    OverflowError,
}

/// Failures raised by the host environment's account checks before any
/// record logic runs: a record that is not where a deterministic address
/// says it must be, a caller that is not the recorded authority, or an
/// attempt to create a record that already exists.
#[derive(Clone, Copy, Debug, PartialEq, Eq, Structural)]
pub enum EnvError {
    /// A required record does not exist under this system's authority.
    MissingAccount,
    /// A presented record address differs from the expected one.
    AddressMismatch,
    /// The caller is not the authority recorded for this operation.
    Unauthorized,
    /// A record already exists at the derived address.
    AlreadyExists,
    /// No collision-avoiding bump could be found for the seed list.
    DerivationFailed,
}

/// Either an environment-level account failure or a domain error code.
#[derive(Clone, Copy, Debug, PartialEq, Eq, Structural)]
pub enum OpError {
    Env(EnvError),
    Code(ErrorCode),
}

} // verus!
