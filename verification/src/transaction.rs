//! The deploy-account transaction: a transient value built per deployment
//! call and consumed by the external executor.

use vstd::prelude::*;

use crate::errors::{ExecutionError, SequencerError};
use crate::felt::Felt;

verus! {

/// A deploy-account transaction, fully determined by the deployment inputs
/// and the funded balance read back from state.
///
/// The transaction hash is kept as the fixed zero placeholder; computing the
/// canonical hash of the transaction's serialization is an extension point
/// of this simulator, not part of the sequencing contract.
#[derive(Debug, Clone)]
pub struct DeployAccountTransaction {
    pub max_fee: u128,
    pub version: Felt,
    pub class_hash: Felt,
    pub contract_address: Felt,
    pub contract_address_salt: Felt,
    pub constructor_calldata: Vec<Felt>,
    pub nonce: Felt,
    pub signature: Vec<Felt>,
    pub transaction_hash: Felt,
}

impl DeployAccountTransaction {
    /// Every field element carried by the transaction is well-formed.
    pub open spec fn wf(self) -> bool {
        &&& self.version.wf()
        &&& self.class_hash.wf()
        &&& self.contract_address.wf()
        &&& self.contract_address_salt.wf()
        &&& self.nonce.wf()
        &&& self.transaction_hash.wf()
        &&& forall|i: int|
            0 <= i < self.constructor_calldata@.len() ==> (#[trigger] self.constructor_calldata@[
                i
            ]).wf()
        &&& forall|i: int| 0 <= i < self.signature@.len() ==> (#[trigger] self.signature@[i]).wf()
    }

    /// Turn the executor's verdict on this transaction into the deployment
    /// result: on success the pair (transaction hash, contract address), on
    /// failure the executor's error surfaced verbatim.
    pub fn complete(self, execution_result: Result<(), ExecutionError>) -> (r: Result<
        (Felt, Felt),
        SequencerError,
    >)
        ensures
            match r {
                Ok((tx_hash, address)) => {
                    &&& execution_result is Ok
                    &&& tx_hash@ == self.transaction_hash@
                    &&& address@ == self.contract_address@
                },
                Err(e) => {
                    &&& execution_result matches Err(xe)
                    &&& e == SequencerError::Execution(xe)
                },
            },
    {
        match execution_result {
            Ok(()) => Ok((self.transaction_hash, self.contract_address)),
            Err(e) => Err(SequencerError::Execution(e)),
        }
    }
}

} // verus!
