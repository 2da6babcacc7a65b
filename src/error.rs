use vstd::prelude::*;

verus! {

/// Every way a request against the escrow can be refused.
#[derive(Debug, Clone, Copy, PartialEq, Eq, Structural)]
pub enum GaslessError {
    /// The permit's deadline lies before the current time.
    DeadlineExpired,
    /// The nonce does not exceed the last accepted one.
    InvalidOrReplayedNonce,
    /// No signature verification stands first in the transaction.
    ProofMissingOrMisplaced,
    /// The verified key differs from the key the relayer named.
    SignaturePubkeyMismatch,
    /// The verified message differs from the permit of this request.
    SignatureMessageMismatch,
    /// The signing key is not the escrow owner's.
    OwnerPubkeyMismatch,
    /// The escrow holds less than amount plus fee.
    InsufficientFunds,
    /// An account fails its identity or authority check.
    AccountMismatch,
    /// The escrow record cannot be created.
    BootstrapError,
}

} // verus!
