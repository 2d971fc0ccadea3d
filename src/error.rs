use vstd::prelude::*;

verus! {

/// Why an operation was refused. A refused operation performs no ledger action.
#[derive(Clone, Copy, Debug, PartialEq, Eq, Structural)]
pub enum MarketplaceError {
    /// A caller or record identity does not match.
    InvalidOwner,
    /// The listing's asset differs from the presented asset.
    InvalidNFT,
    /// A fee does not fit in 64 bits.
    MathOverflow,
    /// The multisig configuration is invalid.
    InvalidThreshold,
    /// The multisig quorum is not met.
    Unauthorized,
    /// A token account that the chosen rail needs was not supplied.
    MissingAccount,
    /// The asset's issuance authority is not the program's own (it was relinquished).
    InvalidMintAuthority,
    /// The escrow authority holds no delegation over the seller's asset.
    NotDelegated,
}

} // verus!
