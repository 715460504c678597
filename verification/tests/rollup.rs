use solana_client_ext::budget::{
    get_transaction_check_results, FeeDetails, SVMTransactionExecutionBudget,
};
use solana_client_ext::estimate::estimate_compute_units_unsigned_tx;
use solana_client_ext::loader::{Account, AccountLookup};
use solana_client_ext::message::{
    CompiledInstruction, Message, MessageHeader, Signature, Transaction,
};
use solana_client_ext::pubkey::Pubkey;
use solana_client_ext::rollup::{
    create_transaction_batch_processor, BlockRelation, BuiltinEntrypoint, ForkRollUpGraph,
    ProcessedTransaction, RollUpChannel,
};

fn transaction() -> Transaction {
    Transaction::new_unsigned(Message {
        header: MessageHeader {
            num_required_signatures: 1,
            num_readonly_signed_accounts: 0,
            num_readonly_unsigned_accounts: 0,
        },
        account_keys: vec![Pubkey { bytes: [1; 32] }],
        recent_blockhash: [0; 32],
        instructions: vec![],
    })
}

fn default_budget() -> SVMTransactionExecutionBudget {
    SVMTransactionExecutionBudget {
        compute_unit_limit: 1_400_000,
        max_instruction_stack_depth: 5,
        max_instruction_trace_length: 64,
        sha256_max_slices: 20_000,
        max_call_depth: 64,
        stack_frame_size: 4096,
        max_cpi_instruction_size: 1280,
        heap_size: 32 * 1024,
    }
}

#[test]
fn checks_pass_with_default_limits() {
    assert!(get_transaction_check_results(0).is_empty());
    let results = get_transaction_check_results(3);
    assert_eq!(results.len(), 3);
    for result in results {
        let details = result.unwrap();
        assert!(details.nonce.is_none());
        let limits = details.compute_budget_and_limits.unwrap();
        assert_eq!(limits.budget, default_budget());
        assert_eq!(limits.loaded_accounts_data_size_limit, 64 * 1024 * 1024);
        assert_eq!(
            limits.fee_details,
            FeeDetails { transaction_fee: 0, prioritization_fee: 0 }
        );
    }
}

#[test]
fn batch_is_prepared() {
    let channel = RollUpChannel::new(vec![Pubkey { bytes: [1; 32] }], ());
    let batch = channel.prepare_rollup_transfers(&[transaction(), transaction()]);
    assert_eq!(batch.check_results.len(), 2);
    assert_eq!(batch.environment.blockhash, [0; 32]);
    assert_eq!(batch.environment.blockhash_lamports_per_signature, 5000);
    assert_eq!(batch.environment.epoch_total_stake, 0);
    assert!(batch.environment.rent_collector.is_none());
    assert!(batch.environment.feature_set.lift_cpi_caller_restriction);
    assert!(batch.environment.feature_set.enable_loader_v4);
    assert!(batch.environment.feature_set.reenable_zk_elgamal_proof_program);
    assert!(batch.processor.feature_set.enable_poseidon_syscall);
    assert_eq!(batch.processor.compute_budget, default_budget());
}

#[test]
fn processor_has_two_builtins() {
    let setup = create_transaction_batch_processor(
        solana_svm_feature_set::SVMFeatureSet::default(),
        default_budget(),
    );
    assert_eq!(setup.slot, 1);
    assert_eq!(setup.epoch, 1);
    assert!(!setup.feature_set.enable_loader_v4);
    assert!(!setup.reject_deployment_of_broken_elfs);
    assert!(!setup.debugging_features);
    assert_eq!(setup.builtins.len(), 2);
    let system = &setup.builtins[0];
    assert_eq!(system.program_id.bytes, [0; 32]);
    assert_eq!(system.name, "system_program");
    assert_eq!(system.account_size, b"system_program".len());
    assert_eq!(system.entrypoint, BuiltinEntrypoint::SystemProcessor);
    let loader = &setup.builtins[1];
    assert_eq!(
        solana_sdk::pubkey::Pubkey::new_from_array(loader.program_id.bytes).to_string(),
        "BPFLoader2111111111111111111111111111111111"
    );
    assert_eq!(loader.name, "solana_bpf_loader_program");
    assert_eq!(loader.account_size, b"solana_bpf_loader_program".len());
    assert_eq!(loader.entrypoint, BuiltinEntrypoint::BpfLoader);
    for builtin in &setup.builtins {
        assert!(builtin.deployment_slot < setup.slot);
    }
}

#[test]
fn forks_are_unknown() {
    assert_eq!(ForkRollUpGraph {}.relationship(0, 0), BlockRelation::Unknown);
    assert_eq!(ForkRollUpGraph {}.relationship(1, 2), BlockRelation::Unknown);
}

#[test]
fn units_are_read_off_in_order() {
    let channel = RollUpChannel::new(vec![()], "client");
    assert_eq!(channel.keys.len(), 1);
    assert_eq!(channel.rpc_client, "client");
    let units = channel.process_rollup_transfers(&vec![
        Ok(ProcessedTransaction::Executed { executed_units: 450 }),
        Ok(ProcessedTransaction::FeesOnly),
        Ok(ProcessedTransaction::Executed { executed_units: 7 }),
    ]);
    assert_eq!(units, vec![450, 0, 7]);
    assert!(channel.process_rollup_transfers(&vec![]).is_empty());
}

#[test]
fn transaction_estimate_is_what_the_run_used() {
    let channel = RollUpChannel::new(vec![()], ());
    let run = |outcome| estimate_compute_units_unsigned_tx(&channel, &vec![Ok(outcome)]);
    assert_eq!(run(ProcessedTransaction::Executed { executed_units: 3000 }), Ok(3000));
    assert_eq!(run(ProcessedTransaction::FeesOnly), Ok(0));
}

#[test]
fn batch_holds_transactions_in_order() {
    let channel = RollUpChannel::new(vec![()], ());
    let mut good = transaction();
    good.signatures = vec![Signature { bytes: [3; 64] }];
    good.message.account_keys.push(Pubkey { bytes: [2; 32] });
    good.message.recent_blockhash = [7; 32];
    good.message.instructions =
        vec![CompiledInstruction { program_id_index: 1, accounts: vec![0], data: vec![9] }];
    let mut payer_called = transaction();
    payer_called.message.instructions =
        vec![CompiledInstruction { program_id_index: 0, accounts: vec![], data: vec![] }];
    let mut unsigned = transaction();
    unsigned.signatures.clear();
    let batch = channel.prepare_rollup_transfers(&[good, payer_called, transaction(), unsigned]);
    assert_eq!(batch.check_results.len(), 4);
    assert_eq!(batch.transactions.len(), 4);
    let first = batch.transactions[0].as_ref().unwrap();
    assert_eq!(first.signatures().len(), 1);
    assert_eq!(first.signature().as_ref(), [3; 64]);
    assert_eq!(first.message().recent_blockhash().to_bytes(), [7; 32]);
    assert_eq!(first.message().account_keys().len(), 2);
    assert_eq!(first.message().instructions()[0].data, vec![9]);
    assert_eq!(
        batch.transactions[1],
        Err(solana_sdk::transaction::TransactionError::SanitizeFailure)
    );
    assert!(batch.transactions[2].is_ok());
    assert_eq!(
        batch.transactions[3],
        Err(solana_sdk::transaction::TransactionError::SanitizeFailure)
    );
}

#[test]
fn each_batch_starts_without_accounts() {
    let channel = RollUpChannel::new(vec![()], "client");
    let key = Pubkey { bytes: [1; 32] };
    let mut first = channel.account_loader();
    assert_eq!(*first.rpc_client(), "client");
    first.account_fetched(
        &key,
        Some(Account {
            lamports: 1,
            data: vec![],
            owner: key,
            executable: false,
            rent_epoch: 0,
        }),
    );
    assert_eq!(
        channel.account_loader().get_account_shared_data(&key),
        AccountLookup::Fetch(key)
    );
}
