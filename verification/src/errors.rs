use vstd::prelude::*;

verus! {

/// Why a transfer was refused before anything was dispatched. Every failure
/// here is detected ahead of the external call, so no account is touched.
#[derive(Clone, Copy, Debug, PartialEq, Eq, Structural)]
pub enum TransferError {
    /// The destination token account is not owned by the destination wallet.
    InvalidUserOriginalMintTokenAccount,
    /// The supplied token program reference is not the token program.
    IncorrectTokenProgram,
    /// The supplied metadata program reference is not the extended
    /// protocol's published program.
    IncorrectMetadataProgram,
}

} // verus!
