//! The sequencer: owner of one execution context and one exclusively held
//! state view, and driver of the deploy-account transaction lifecycle.
//!
//! The sequencer prepares a deployment by deriving the target address and
//! its fee-balance storage slot, reading the funded balance back from state
//! to fix the transaction's max fee, and building the transaction. The
//! privileged drip path first writes a funding balance directly into state,
//! bypassing the executor. Executing the prepared transaction is the
//! external executor's job; its verdict is folded back into the deployment
//! result by [`DeployAccountTransaction::complete`].
//!
//! Exclusive ownership stands in for the state lock: every state access
//! goes through a borrow of the sequencer, so no two operations on one
//! sequencer can interleave their state reads and writes. A surrounding
//! application that shares one sequencer between threads wraps it in a
//! mutual-exclusion lock and so keeps the same discipline.

use vstd::prelude::*;

use crate::context::{new_execution_context, ExecutionContext};
use crate::derivation::{contract_address, contract_address_of, storage_key_of, storage_var_address};
use crate::errors::SequencerError;
use crate::felt::{felt_values, pow2_128, Felt};
use crate::state::StateView;
use crate::transaction::DeployAccountTransaction;

verus! {

/// The name of the fee token's balance storage variable.
pub const BALANCES_VAR_NAME: &'static str = "ERC20_balances";

/// The address a deployment targets: derived from its salt, class hash and
/// constructor calldata, with the zero deployer address.
pub open spec fn deployed_address(salt: int, class_hash: int, calldata: Seq<int>) -> int {
    contract_address_of(salt, class_hash, calldata, 0)
}

/// The fee-token storage slot that holds the balance of an account,
/// indexed by the raw value of the account's address.
pub open spec fn balance_storage_key(address: int) -> int {
    storage_key_of("ERC20_balances"@, seq![address])
}

/// The sequencer: one immutable execution context and one exclusively
/// owned state view.
#[derive(Debug)]
pub struct KatanaSequencer {
    pub block_context: ExecutionContext,
    pub state: StateView,
}

impl KatanaSequencer {
    /// The context and the state are well-formed.
    pub open spec fn wf(self) -> bool {
        self.block_context.wf() && self.state.wf()
    }

    /// The transaction is the deployment that this sequencer's state and
    /// context prescribe for the given inputs: it targets the derived
    /// address, its max fee is the low 128 bits of the balance stored at
    /// the derived fee slot, its nonce is zero, its hash is the fixed
    /// placeholder, and it carries the inputs unchanged.
    pub open spec fn prepared_deployment(
        self,
        tx: DeployAccountTransaction,
        class_hash: int,
        version: int,
        salt: int,
        calldata: Seq<int>,
        signature: Seq<int>,
    ) -> bool {
        let address = deployed_address(salt, class_hash, calldata);
        let key = balance_storage_key(address);
        &&& tx.contract_address@ == address
        &&& tx.max_fee == self.state.storage_at(self.block_context.fee_token_address@, key) % pow2_128()
        &&& tx.class_hash@ == class_hash
        &&& tx.version@ == version
        &&& tx.contract_address_salt@ == salt
        &&& felt_values(tx.constructor_calldata@) == calldata
        &&& felt_values(tx.signature@) == signature
        &&& tx.nonce@ == 0
        &&& tx.transaction_hash@ == 0
        &&& tx.wf()
    }

    /// The post state is the pre state with exactly the balance slot of the
    /// deployment's derived address overwritten by the funding balance, and
    /// the transaction is the deployment prepared against the post state.
    pub open spec fn dripped_deployment(
        pre: KatanaSequencer,
        post: KatanaSequencer,
        tx: DeployAccountTransaction,
        class_hash: int,
        version: int,
        salt: int,
        calldata: Seq<int>,
        signature: Seq<int>,
        balance: u64,
    ) -> bool {
        let address = deployed_address(salt, class_hash, calldata);
        let key = balance_storage_key(address);
        let fee_token = pre.block_context.fee_token_address@;
        &&& post.block_context == pre.block_context
        &&& forall|c: int, k: int|
            #[trigger] post.state.storage_at(c, k) == if c == fee_token && k == key {
                balance as int
            } else {
                pre.state.storage_at(c, k)
            }
        &&& forall|a: int| #[trigger] post.state.nonce_at(a) == pre.state.nonce_at(a)
        &&& forall|a: int| #[trigger] post.state.class_hash_at(a) == pre.state.class_hash_at(a)
        &&& post.prepared_deployment(tx, class_hash, version, salt, calldata, signature)
    }

    /// Build a fresh sequencer: the default execution context and an empty
    /// state view.
    pub fn new() -> (s: KatanaSequencer)
        ensures
            s.wf(),
            s.block_context.is_default(),
            forall|c: int, k: int| s.state.storage_at(c, k) == 0,
            forall|a: int| s.state.nonce_at(a) == 0,
            forall|a: int| s.state.class_hash_at(a) == 0,
    {
        KatanaSequencer { block_context: new_execution_context(), state: StateView::new() }
    }

    /// Prepare the deploy-account transaction for the given inputs against
    /// the current state: derive the target address and its
    /// fee-balance slot, read the funded balance, and take its low 128
    /// bits as the transaction's max fee. The derivation scheme in use is
    /// total, so preparation always succeeds; a failed derivation would be
    /// propagated, never retried.
    pub fn deploy_account(
        &self,
        class_hash: Felt,
        version: Felt,
        contract_address_salt: Felt,
        constructor_calldata: Vec<Felt>,
        signature: Vec<Felt>,
    ) -> (r: Result<DeployAccountTransaction, SequencerError>)
        requires
            self.wf(),
            class_hash.wf(),
            version.wf(),
            contract_address_salt.wf(),
            forall|i: int|
                0 <= i < constructor_calldata@.len() ==> (#[trigger] constructor_calldata@[i]).wf(),
            forall|i: int| 0 <= i < signature@.len() ==> (#[trigger] signature@[i]).wf(),
        ensures
            r matches Ok(tx) && self.prepared_deployment(
                tx,
                class_hash@,
                version@,
                contract_address_salt@,
                felt_values(constructor_calldata@),
                felt_values(signature@),
            ),
    {
        let zero = Felt::zero();
        let address = contract_address(
            &contract_address_salt,
            &class_hash,
            &constructor_calldata,
            &zero,
        );
        let args = vec![address];
        proof {
            assert(felt_values(args@) =~= seq![address@]);
        }
        let key = storage_var_address(BALANCES_VAR_NAME, &args);
        let balance = self.state.get_storage(&self.block_context.fee_token_address, &key);
        let max_fee = balance.low_u128();
        Ok(
            DeployAccountTransaction {
                max_fee,
                version,
                class_hash,
                contract_address: address,
                contract_address_salt,
                constructor_calldata,
                nonce: Felt::zero(),
                signature,
                transaction_hash: Felt::zero(),
            },
        )
    }

    /// Fund, then prepare: write the balance, widened to the fee unit's
    /// width, directly into the deployment's fee-balance slot — the
    /// privileged, out-of-protocol drip used for test and genesis
    /// provisioning — and then prepare the deployment exactly as
    /// [`Self::deploy_account`] does. The freshly written balance is what
    /// funds the deployment: the prepared max fee equals the balance.
    pub fn drip_and_deploy_account(
        &mut self,
        class_hash: Felt,
        version: Felt,
        contract_address_salt: Felt,
        constructor_calldata: Vec<Felt>,
        signature: Vec<Felt>,
        balance: u64,
    ) -> (r: Result<DeployAccountTransaction, SequencerError>)
        requires
            old(self).wf(),
            class_hash.wf(),
            version.wf(),
            contract_address_salt.wf(),
            forall|i: int|
                0 <= i < constructor_calldata@.len() ==> (#[trigger] constructor_calldata@[i]).wf(),
            forall|i: int| 0 <= i < signature@.len() ==> (#[trigger] signature@[i]).wf(),
        ensures
            final(self).wf(),
            r matches Ok(tx) && KatanaSequencer::dripped_deployment(
                *old(self),
                *final(self),
                tx,
                class_hash@,
                version@,
                contract_address_salt@,
                felt_values(constructor_calldata@),
                felt_values(signature@),
                balance,
            ),
            r matches Ok(tx) && tx.max_fee == balance as u128,
    {
        let zero = Felt::zero();
        let address = contract_address(
            &contract_address_salt,
            &class_hash,
            &constructor_calldata,
            &zero,
        );
        let args = vec![address];
        proof {
            assert(felt_values(args@) =~= seq![address@]);
        }
        let key = storage_var_address(BALANCES_VAR_NAME, &args);
        let fee_token = self.block_context.fee_token_address;
        self.state.set_storage(fee_token, key, Felt::from_u64(balance));
        let r = self.deploy_account(
            class_hash,
            version,
            contract_address_salt,
            constructor_calldata,
            signature,
        );
        proof {
            lemma_u64_mod_pow2_128(balance);
        }
        r
    }
}

/// A 64-bit balance is unchanged by reduction modulo 2^128.
proof fn lemma_u64_mod_pow2_128(b: u64)
    ensures
        (b as int) % pow2_128() == b as int,
{
    assert((b as int) % 0x100000000000000000000000000000000int == b as int) by (nonlinear_arith)
        requires
            0 <= (b as int) < 0x100000000000000000000000000000000int,
    ;
}

/// Law: address derivation is deterministic. Two deployments prepared from
/// the same (salt, class hash, constructor calldata) target the identical
/// contract address, whatever the state, version or signature of each.
pub proof fn lemma_deployment_address_deterministic(
    s1: KatanaSequencer,
    s2: KatanaSequencer,
    tx1: DeployAccountTransaction,
    tx2: DeployAccountTransaction,
    class_hash: int,
    version1: int,
    version2: int,
    salt: int,
    calldata: Seq<int>,
    signature1: Seq<int>,
    signature2: Seq<int>,
)
    requires
        s1.prepared_deployment(tx1, class_hash, version1, salt, calldata, signature1),
        s2.prepared_deployment(tx2, class_hash, version2, salt, calldata, signature2),
    ensures
        tx1.contract_address@ == tx2.contract_address@,
{
}

/// Law: funding precedes the fee. A funded deployment's max fee equals the
/// funding balance exactly, whatever balance the slot held before.
pub proof fn lemma_funding_precedes_fee(
    pre: KatanaSequencer,
    post: KatanaSequencer,
    tx: DeployAccountTransaction,
    class_hash: int,
    version: int,
    salt: int,
    calldata: Seq<int>,
    signature: Seq<int>,
    balance: u64,
)
    requires
        KatanaSequencer::dripped_deployment(
            pre,
            post,
            tx,
            class_hash,
            version,
            salt,
            calldata,
            signature,
            balance,
        ),
    ensures
        tx.max_fee == balance as u128,
{
    lemma_u64_mod_pow2_128(balance);
}

/// Law: the zero-fee path. A deployment prepared against a state with no
/// funding recorded anywhere carries a max fee of exactly zero; the
/// sequencer itself never rejects such a deployment — its contract owes a
/// prepared transaction for every well-formed input.
pub proof fn lemma_zero_fee_deployment(
    s: KatanaSequencer,
    tx: DeployAccountTransaction,
    class_hash: int,
    version: int,
    salt: int,
    calldata: Seq<int>,
    signature: Seq<int>,
)
    requires
        forall|c: int, k: int| s.state.storage_at(c, k) == 0,
        s.prepared_deployment(tx, class_hash, version, salt, calldata, signature),
    ensures
        tx.max_fee == 0,
{
}

/// Law: sequential funded deployments are isolated. When two drip-and-
/// deploy operations run one after the other and their derived balance
/// slots differ, each transaction's max fee equals exactly the balance its
/// own call wrote — no bleed-through in either direction — and both
/// fundings are still recorded afterwards. Inputs whose derived slots
/// collide are outside this law.
pub proof fn lemma_sequential_drips_isolated(
    s0: KatanaSequencer,
    s1: KatanaSequencer,
    s2: KatanaSequencer,
    tx1: DeployAccountTransaction,
    tx2: DeployAccountTransaction,
    class_hash1: int,
    class_hash2: int,
    version1: int,
    version2: int,
    salt1: int,
    salt2: int,
    calldata1: Seq<int>,
    calldata2: Seq<int>,
    signature1: Seq<int>,
    signature2: Seq<int>,
    balance1: u64,
    balance2: u64,
)
    requires
        KatanaSequencer::dripped_deployment(
            s0,
            s1,
            tx1,
            class_hash1,
            version1,
            salt1,
            calldata1,
            signature1,
            balance1,
        ),
        KatanaSequencer::dripped_deployment(
            s1,
            s2,
            tx2,
            class_hash2,
            version2,
            salt2,
            calldata2,
            signature2,
            balance2,
        ),
        balance_storage_key(deployed_address(salt1, class_hash1, calldata1))
            != balance_storage_key(deployed_address(salt2, class_hash2, calldata2)),
    ensures
        tx1.max_fee == balance1 as u128,
        tx2.max_fee == balance2 as u128,
        s2.state.storage_at(
            s0.block_context.fee_token_address@,
            balance_storage_key(deployed_address(salt1, class_hash1, calldata1)),
        ) == balance1 as int,
        s2.state.storage_at(
            s0.block_context.fee_token_address@,
            balance_storage_key(deployed_address(salt2, class_hash2, calldata2)),
        ) == balance2 as int,
{
    lemma_u64_mod_pow2_128(balance1);
    lemma_u64_mod_pow2_128(balance2);
}

impl Default for KatanaSequencer {
    /// The default sequencer is the fresh sequencer of [`KatanaSequencer::new`]:
    /// the default execution context and an empty state view.
    fn default() -> (s: KatanaSequencer)
        ensures
            s.wf(),
            s.block_context.is_default(),
            forall|c: int, k: int| s.state.storage_at(c, k) == 0,
            forall|a: int| s.state.nonce_at(a) == 0,
            forall|a: int| s.state.class_hash_at(a) == 0,
    {
        KatanaSequencer::new()
    }
}

} // verus!
