use vstd::prelude::*;

verus! {

/// Why an exchange operation was rejected. Each precondition maps to one
/// kind; `ExternalMutationFailure` stands for a destroy or issue call that
/// the external ledger refused.
#[derive(Clone, Copy, Debug, PartialEq, Eq, Structural)]
pub enum SwapErrors {
    /// The requested quantity was zero.
    ZeroQuantity,
    /// The source and destination asset identities were equal.
    SameAssetSwap,
    /// The source holder's balance was below the requested quantity.
    InsufficientBalance,
    /// The two assets carry different decimal precisions.
    PrecisionMismatch,
    /// The destination asset's issuance authority, or the supplied derived
    /// authority, did not match the expected value.
    AuthorityMismatch,
    /// The referenced ledger subsystem is not the expected token ledger.
    LedgerSubsystemMismatch,
    /// The external ledger rejected the destroy or the issue call.
    ExternalMutationFailure,
}

} // verus!
