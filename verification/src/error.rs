use vstd::prelude::*;

verus! {

/// The ways an entry point can fail. Every failure is fatal on the host: the
/// surrounding runtime aborts the call and rolls back all state changes, so a
/// caller that receives one of these values must not commit anything.
#[derive(Clone, Copy, Debug, PartialEq, Eq, Structural)]
pub enum ContractError {
    /// An initializer ran while contract state already exists.
    AlreadyInitialized,
    /// The contract-level metadata does not carry the standard's version
    /// string.
    MetadataSpecMismatch,
    /// The contract-level metadata names a reference without its hash, or a
    /// hash without its reference.
    MetadataReferenceUnpaired,
    /// The contract-level metadata's reference hash is not exactly 32 bytes.
    MetadataHashWrongLength,
    /// A mutating entry point was called by an account other than the
    /// contract's own account.
    UnauthorizedCaller,
    /// A mint was attempted with a token id that is already in the ledger.
    TokenIdAlreadyExists,
}

} // verus!
