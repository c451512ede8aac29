use vstd::prelude::*;

verus! {

/// Every way a ledger operation can be refused.
#[derive(Clone, Copy, Debug, PartialEq, Eq, Structural)]
pub enum ContractError {
    /// A singleton record (the collection owner) is absent.
    NotFound,
    /// No token carries the requested id.
    TokenNotFound,
    /// The collection has not been initialized yet.
    ContractNotInitialized,
    /// `initialize` was called a second time.
    AlreadyExists,
    /// The caller lacks the role the operation demands.
    Unauthorized,
    /// The caller (or the named `from`) does not own the token.
    NotOwner,
    /// The caller may not move the token on the owner's behalf.
    NotApproved,
    /// A malformed argument (an empty name or symbol, an unknown role).
    InvalidInput,
    /// An empty metadata URI.
    InvalidMetadataUri,
    /// Minting would take the supply past the collection cap.
    SupplyLimitExceeded,
    /// Basis points above 10000.
    InvalidRoyalty,
    /// Metadata was frozen for good.
    MetadataFrozen,
    /// The collection is paused.
    Paused,
    /// A burn without its confirmation flag.
    BurnNotConfirmed,
    /// An approval that names the approver, or the owner, as its own spender.
    SelfApproval,
    /// Parallel batch inputs of different lengths.
    BatchLengthMismatch,
    /// A batch with nothing in it.
    EmptyBatch,
    /// The caller is not on the whitelist.
    NotWhitelisted,
    /// The token id counter is exhausted.
    Overflow,
}

} // verus!
