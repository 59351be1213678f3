//! Error taxonomy of the sequencer: derivation failures discovered before
//! any state is touched, and execution failures surfaced verbatim from the
//! external transaction executor.

use vstd::prelude::*;
use vstd::string::StringExecFns;

verus! {

/// A failure reported by the external transaction executor. The sequencer
/// never interprets, downgrades or retries these; they are passed to the
/// caller unchanged.
#[derive(Debug, Clone)]
pub enum ExecutionError {
    /// The declared class of the account is unknown to the executor.
    InvalidClassHash,
    /// The transaction's nonce does not match the account's next nonce.
    NonceMismatch,
    /// A configured step or resource limit was exceeded during execution.
    ResourceLimitExceeded,
    /// The funded balance does not cover the transaction's fee.
    InsufficientFee,
    /// Any other executor-side failure, carried as its message.
    Other(String),
}

/// A failure of a sequencer operation.
#[derive(Debug, Clone)]
pub enum SequencerError {
    /// Deriving the contract address from (salt, class hash, calldata,
    /// deployer) is undefined for the inputs.
    AddressDerivation,
    /// Deriving the fee-balance storage key is undefined for the inputs.
    StorageKeyDerivation,
    /// The executor rejected or failed the transaction; carried verbatim.
    Execution(ExecutionError),
}

impl SequencerError {
    /// A short human-readable description of the failure.
    pub fn describe(&self) -> (r: String)
        ensures
            r@ == match self {
                SequencerError::AddressDerivation => "contract address derivation failed"@,
                SequencerError::StorageKeyDerivation => "storage key derivation failed"@,
                SequencerError::Execution(_) => "transaction execution failed"@,
            },
    {
        match self {
            SequencerError::AddressDerivation => {
                wrap_str("contract address derivation failed")
            },
            SequencerError::StorageKeyDerivation => {
                wrap_str("storage key derivation failed")
            },
            SequencerError::Execution(_) => wrap_str("transaction execution failed"),
        }
    }
}

/// Make an owned string from a literal.
fn wrap_str(s: &str) -> (r: String)
    ensures
        r@ == s@,
{
    String::from_str(s)
}

} // verus!
