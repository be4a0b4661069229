use vstd::prelude::*;

verus! {

/// Everything that can go wrong while handling an operation.
///
/// Validation fully precedes any state change: when an operation returns
/// an error, no new record and no transfer instructions are produced.
#[derive(Clone, Copy, Debug, PartialEq, Eq, Structural)]
pub enum ContractError {
    /// The caller lacks the role required for the operation.
    Unauthorized,
    /// The counterpart role has vetoed configuration changes.
    Locked,
    /// A Manager-directed transfer names a destination outside the whitelist.
    NotWhitelisted,
    /// A deposit did not consist of exactly one coin of the base denomination.
    NoLunaReceived,
    /// The recorded base investment exceeds the vault's current holdings,
    /// so the profit computation would underflow.
    AccountingUnderflow,
}

} // verus!
