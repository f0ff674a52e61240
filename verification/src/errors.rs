use vstd::prelude::*;

verus! {

/// Every way an operation can fail.  Each operation's contract says
/// exactly which of these it returns on which inputs; a failed operation
/// never commits any state change.
#[derive(Clone, Copy, Debug, PartialEq, Eq, Structural)]
pub enum LoyaltyError {
    /// The caller's identity does not match the required authority.
    AuthorizationError,
    /// The target derived address is already populated.
    AlreadyInitialized,
    /// An expected record or asset is absent.
    NotFound,
    /// A caller-supplied address does not match the canonical derivation.
    AddressMismatch,
    /// A checked computation would exceed the numeric range.
    ArithmeticOverflow,
    /// A transfer asks for more than the paying account holds.
    InsufficientBalance,
}

} // verus!
