//! The block execution context: immutable per-block configuration handed to
//! every transaction execution.

use vstd::prelude::*;
use vstd::string::StringExecFns;

use crate::felt::Felt;

verus! {

/// Default gas price, in the smallest fee-token denomination: 100 gwei.
pub const DEFAULT_GAS_PRICE: u128 = 100000000000;

/// Default step limit for the invoke and validate phases alike.
pub const DEFAULT_MAX_STEPS: u32 = 1000000;

/// The well-known address credited with block-production fees.
pub const SEQUENCER_ADDRESS: u64 = 0x69;

/// The well-known address of the canonical fee-paying token contract.
pub const FEE_ERC20_CONTRACT_ADDRESS: u64 = 0x420;

/// The number of resource kinds the executor can charge for.
pub const RESOURCE_KIND_COUNT: usize = 8;

/// The weight of one named execution resource in fee computation. The
/// executor scales each resource's count by its weight; this chain charges
/// every resource at the unit weight.
#[derive(Debug, Clone)]
pub struct ResourceWeight {
    pub name: String,
    pub weight: u64,
}

/// Immutable per-block configuration: chain identity, block counters, the
/// fee addresses, resource cost weights, gas price and step limits.
#[derive(Debug)]
pub struct ExecutionContext {
    pub chain_id: String,
    pub block_number: u64,
    pub block_timestamp: u64,
    pub sequencer_address: Felt,
    pub fee_token_address: Felt,
    pub resource_cost_weights: Vec<ResourceWeight>,
    pub gas_price: u128,
    pub invoke_tx_max_n_steps: u32,
    pub validate_max_n_steps: u32,
}

impl ExecutionContext {
    /// The context is well-formed: addresses are reduced field elements and
    /// the weight table is non-empty, covering every chargeable resource
    /// kind at the unit weight.
    pub open spec fn wf(self) -> bool {
        &&& self.sequencer_address.wf()
        &&& self.fee_token_address.wf()
        &&& self.resource_cost_weights@.len() == RESOURCE_KIND_COUNT
        &&& forall|i: int|
            0 <= i < self.resource_cost_weights@.len() ==> (#[trigger] self.resource_cost_weights@[
                i
            ]).weight == 1
    }

    /// The context is the default one: the fixed chain identifier, zero
    /// block number and timestamp, the well-known sequencer and fee-token
    /// addresses, the default gas price, the default step limits for both
    /// phases, and the eight standard resource kinds each at the unit
    /// weight.
    pub open spec fn is_default(self) -> bool {
        &&& self.wf()
        &&& self.chain_id@ == "KATANA"@
        &&& self.block_number == 0
        &&& self.block_timestamp == 0
        &&& self.sequencer_address@ == SEQUENCER_ADDRESS as int
        &&& self.fee_token_address@ == FEE_ERC20_CONTRACT_ADDRESS as int
        &&& self.gas_price == DEFAULT_GAS_PRICE
        &&& self.invoke_tx_max_n_steps == DEFAULT_MAX_STEPS
        &&& self.validate_max_n_steps == DEFAULT_MAX_STEPS
        &&& self.resource_cost_weights@.len() == RESOURCE_KIND_COUNT
        &&& self.resource_cost_weights@[0].name@ == "n_steps"@
        &&& self.resource_cost_weights@[1].name@ == "pedersen_builtin"@
        &&& self.resource_cost_weights@[2].name@ == "range_check_builtin"@
        &&& self.resource_cost_weights@[3].name@ == "ecdsa_builtin"@
        &&& self.resource_cost_weights@[4].name@ == "bitwise_builtin"@
        &&& self.resource_cost_weights@[5].name@ == "poseidon_builtin"@
        &&& self.resource_cost_weights@[6].name@ == "output_builtin"@
        &&& self.resource_cost_weights@[7].name@ == "ec_op_builtin"@
    }
}

/// Build the default execution context: the fixed chain identifier, zero
/// block number and timestamp, the well-known sequencer and fee-token
/// addresses, the eight standard resource weights all at one, the default
/// gas price, and the default step limits for both phases.
pub fn new_execution_context() -> (ctx: ExecutionContext)
    ensures
        ctx.is_default(),
{
    let mut weights: Vec<ResourceWeight> = Vec::new();
    weights.push(unit_weight("n_steps"));
    weights.push(unit_weight("pedersen_builtin"));
    weights.push(unit_weight("range_check_builtin"));
    weights.push(unit_weight("ecdsa_builtin"));
    weights.push(unit_weight("bitwise_builtin"));
    weights.push(unit_weight("poseidon_builtin"));
    weights.push(unit_weight("output_builtin"));
    weights.push(unit_weight("ec_op_builtin"));
    ExecutionContext {
        chain_id: chain_id_string(),
        block_number: 0,
        block_timestamp: 0,
        sequencer_address: Felt::from_u64(SEQUENCER_ADDRESS),
        fee_token_address: Felt::from_u64(FEE_ERC20_CONTRACT_ADDRESS),
        resource_cost_weights: weights,
        gas_price: DEFAULT_GAS_PRICE,
        invoke_tx_max_n_steps: DEFAULT_MAX_STEPS,
        validate_max_n_steps: DEFAULT_MAX_STEPS,
    }
}

/// The fixed chain identifier of this simulator.
fn chain_id_string() -> (r: String)
    ensures
        r@ == "KATANA"@,
{
    String::from_str("KATANA")
}

/// A named resource charged at the unit weight.
fn unit_weight(name: &str) -> (r: ResourceWeight)
    ensures
        r.name@ == name@,
        r.weight == 1,
{
    ResourceWeight { name: String::from_str(name), weight: 1 }
}

} // verus!
