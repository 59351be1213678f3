use katana_core::context::{DEFAULT_GAS_PRICE, DEFAULT_MAX_STEPS, FEE_ERC20_CONTRACT_ADDRESS, SEQUENCER_ADDRESS};
use katana_core::derivation::{contract_address, storage_var_address};
use katana_core::errors::{ExecutionError, SequencerError};
use katana_core::felt::Felt;
use katana_core::sequencer::KatanaSequencer;

fn felt(v: u64) -> Felt {
    Felt::from_u64(v)
}

#[test]
fn fresh_sequencer_has_default_context() {
    let s = KatanaSequencer::new();
    assert_eq!(s.block_context.chain_id, "KATANA");
    assert_eq!(s.block_context.block_number, 0);
    assert_eq!(s.block_context.block_timestamp, 0);
    assert_eq!(s.block_context.gas_price, DEFAULT_GAS_PRICE);
    assert_eq!(s.block_context.gas_price, 100_000_000_000);
    assert_eq!(s.block_context.invoke_tx_max_n_steps, DEFAULT_MAX_STEPS);
    assert_eq!(s.block_context.validate_max_n_steps, 1_000_000);
    assert!(s.block_context.sequencer_address.eq_felt(&felt(SEQUENCER_ADDRESS)));
    assert!(s.block_context.fee_token_address.eq_felt(&felt(FEE_ERC20_CONTRACT_ADDRESS)));
    let names: Vec<&str> = s
        .block_context
        .resource_cost_weights
        .iter()
        .map(|w| w.name.as_str())
        .collect();
    assert_eq!(
        names,
        vec![
            "n_steps",
            "pedersen_builtin",
            "range_check_builtin",
            "ecdsa_builtin",
            "bitwise_builtin",
            "poseidon_builtin",
            "output_builtin",
            "ec_op_builtin",
        ]
    );
    assert!(s.block_context.resource_cost_weights.iter().all(|w| w.weight == 1));
}

#[test]
fn default_matches_new() {
    let a = KatanaSequencer::default();
    let b = KatanaSequencer::new();
    assert_eq!(a.block_context.chain_id, b.block_context.chain_id);
    assert_eq!(a.block_context.block_number, b.block_context.block_number);
    assert_eq!(a.block_context.block_timestamp, b.block_context.block_timestamp);
    assert_eq!(a.block_context.gas_price, b.block_context.gas_price);
    assert_eq!(a.block_context.invoke_tx_max_n_steps, b.block_context.invoke_tx_max_n_steps);
    assert_eq!(a.block_context.validate_max_n_steps, b.block_context.validate_max_n_steps);
    assert!(a.block_context.sequencer_address.eq_felt(&b.block_context.sequencer_address));
    assert!(a.block_context.fee_token_address.eq_felt(&b.block_context.fee_token_address));
    let a_names: Vec<&str> =
        a.block_context.resource_cost_weights.iter().map(|w| w.name.as_str()).collect();
    let b_names: Vec<&str> =
        b.block_context.resource_cost_weights.iter().map(|w| w.name.as_str()).collect();
    assert_eq!(a_names, b_names);
}

#[test]
fn zero_fee_deploy_on_fresh_sequencer() {
    let s = KatanaSequencer::new();
    let r = s.deploy_account(felt(7), felt(1), felt(99), vec![], vec![]);
    let tx = r.expect("an unfunded deployment is not rejected by the sequencer");
    assert_eq!(tx.max_fee, 0);
    assert!(tx.nonce.eq_felt(&Felt::zero()));
    assert!(tx.transaction_hash.eq_felt(&Felt::zero()));
}

#[test]
fn drip_and_deploy_scenario() {
    let mut s = KatanaSequencer::new();
    let class_hash = felt(0x1234);
    let salt = felt(0x55);
    let tx = s
        .drip_and_deploy_account(class_hash, felt(1), salt, vec![], vec![], 5000)
        .expect("a funded deployment succeeds");
    assert_eq!(tx.max_fee, 5000);
    let expected = contract_address(&salt, &class_hash, &vec![], &Felt::zero());
    assert!(tx.contract_address.eq_felt(&expected));
    assert!(tx.class_hash.eq_felt(&class_hash));
    assert!(tx.contract_address_salt.eq_felt(&salt));
    assert!(tx.constructor_calldata.is_empty());
    assert!(tx.signature.is_empty());
}

#[test]
fn address_derivation_is_deterministic() {
    let salt = felt(42);
    let class_hash = felt(0xabc);
    let calldata = vec![felt(1), felt(2)];
    let a1 = contract_address(&salt, &class_hash, &calldata, &Felt::zero());
    let a2 = contract_address(&salt, &class_hash, &calldata, &Felt::zero());
    assert!(a1.eq_felt(&a2));

    let s = KatanaSequencer::new();
    let t1 = s
        .deploy_account(class_hash, felt(1), salt, calldata.clone(), vec![])
        .expect("deployment is prepared");
    let t2 = s
        .deploy_account(class_hash, felt(2), salt, calldata, vec![felt(9)])
        .expect("deployment is prepared");
    assert!(t1.contract_address.eq_felt(&t2.contract_address));
}

#[test]
fn distinct_inputs_give_distinct_addresses() {
    let class_hash = felt(0xabc);
    let a1 = contract_address(&felt(1), &class_hash, &vec![], &Felt::zero());
    let a2 = contract_address(&felt(2), &class_hash, &vec![], &Felt::zero());
    assert!(!a1.eq_felt(&a2));
    assert!(!a1.eq_felt(&Felt::zero()));
    assert!(!a2.eq_felt(&Felt::zero()));

    let a3 = contract_address(&felt(1), &class_hash, &vec![felt(3)], &Felt::zero());
    assert!(!a1.eq_felt(&a3));
}

#[test]
fn sequential_drips_are_isolated() {
    let mut s = KatanaSequencer::new();
    let class_hash = felt(0x777);
    let tx1 = s
        .drip_and_deploy_account(class_hash, felt(1), felt(1), vec![], vec![], 1111)
        .expect("first funded deployment succeeds");
    let tx2 = s
        .drip_and_deploy_account(class_hash, felt(1), felt(2), vec![], vec![], 2222)
        .expect("second funded deployment succeeds");
    assert_eq!(tx1.max_fee, 1111);
    assert_eq!(tx2.max_fee, 2222);
    assert!(!tx1.contract_address.eq_felt(&tx2.contract_address));

    let key1 = storage_var_address("ERC20_balances", &vec![tx1.contract_address]);
    let key2 = storage_var_address("ERC20_balances", &vec![tx2.contract_address]);
    assert!(!key1.eq_felt(&key2));
    let b1 = s.state.get_storage(&s.block_context.fee_token_address, &key1);
    let b2 = s.state.get_storage(&s.block_context.fee_token_address, &key2);
    assert_eq!(b1.low_u128(), 1111);
    assert_eq!(b2.low_u128(), 2222);
}

#[test]
fn refunding_overwrites_the_balance() {
    let mut s = KatanaSequencer::new();
    let class_hash = felt(0x9);
    let salt = felt(0x9);
    let tx1 = s
        .drip_and_deploy_account(class_hash, felt(1), salt, vec![], vec![], 100)
        .expect("first funding succeeds");
    assert_eq!(tx1.max_fee, 100);
    let tx2 = s
        .drip_and_deploy_account(class_hash, felt(1), salt, vec![], vec![], 40)
        .expect("second funding succeeds");
    assert_eq!(tx2.max_fee, 40);
}

#[test]
fn largest_balance_is_funded_exactly() {
    let mut s = KatanaSequencer::new();
    let tx = s
        .drip_and_deploy_account(felt(5), felt(1), felt(6), vec![], vec![], u64::MAX)
        .expect("funding with the largest balance succeeds");
    assert_eq!(tx.max_fee, u64::MAX as u128);
}

#[test]
fn unfunded_deploy_reads_only_prior_funding() {
    let mut s = KatanaSequencer::new();
    let class_hash = felt(0x31);
    let funded_salt = felt(1);
    s.drip_and_deploy_account(class_hash, felt(1), funded_salt, vec![], vec![], 900)
        .expect("funding succeeds");
    let other = s
        .deploy_account(class_hash, felt(1), felt(2), vec![], vec![])
        .expect("deployment is prepared");
    assert_eq!(other.max_fee, 0);
    let again = s
        .deploy_account(class_hash, felt(1), funded_salt, vec![], vec![])
        .expect("deployment is prepared");
    assert_eq!(again.max_fee, 900);
}

#[test]
fn complete_returns_hash_and_address_on_success() {
    let s = KatanaSequencer::new();
    let tx = s
        .deploy_account(felt(3), felt(1), felt(4), vec![], vec![])
        .expect("deployment is prepared");
    let address = tx.contract_address;
    let hash = tx.transaction_hash;
    let (got_hash, got_address) = tx.complete(Ok(())).expect("an accepted execution completes");
    assert!(got_hash.eq_felt(&hash));
    assert!(got_address.eq_felt(&address));
}

#[test]
fn complete_surfaces_executor_errors_verbatim() {
    let s = KatanaSequencer::new();
    let tx = s
        .deploy_account(felt(3), felt(1), felt(4), vec![], vec![])
        .expect("deployment is prepared");
    let r = tx.complete(Err(ExecutionError::InsufficientFee));
    match r {
        Err(SequencerError::Execution(ExecutionError::InsufficientFee)) => {},
        _ => panic!("the executor error is surfaced unchanged"),
    }
}

#[test]
fn describe_names_the_failure() {
    let e = SequencerError::Execution(ExecutionError::NonceMismatch);
    assert_eq!(e.describe(), "transaction execution failed");
    assert_eq!(SequencerError::AddressDerivation.describe(), "contract address derivation failed");
    assert_eq!(
        SequencerError::StorageKeyDerivation.describe(),
        "storage key derivation failed"
    );
}

#[test]
fn storage_keys_depend_on_name_and_arguments() {
    let k1 = storage_var_address("ERC20_balances", &vec![felt(7)]);
    let k2 = storage_var_address("ERC20_balances", &vec![felt(8)]);
    let k3 = storage_var_address("ERC20_allowances", &vec![felt(7)]);
    let k4 = storage_var_address("ERC20_balances", &vec![]);
    assert!(!k1.eq_felt(&k2));
    assert!(!k1.eq_felt(&k3));
    assert!(!k1.eq_felt(&k4));
    assert!(!k1.eq_felt(&Felt::zero()));
}
