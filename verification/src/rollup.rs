//! Running transactions against accounts of the ledger without sending them.
//!
//! A client asks a `RollUpChannel` what to run a batch of transactions with, runs them, and hands
//! the outcomes to `process_rollup_transfers`.
use vstd::prelude::*;

use crate::budget::{
    default_execution_budget, get_transaction_check_results, CheckedTransactionDetails,
    SVMTransactionExecutionBudget,
};
use crate::loader::{AccountView, RollUpAccountLoader};
use crate::message::{sanitize, Transaction};
use crate::pubkey::{bpf_loader_id, system_program_id, Pubkey};

verus! {

/// How one slot relates to another.
#[derive(Clone, Copy, Debug, PartialEq, Eq, Structural)]
pub enum BlockRelation {
    Ancestor,
    Equal,
    Descendant,
    Unrelated,
    Unknown,
}

/// The forks that a roll-up knows of: none.
#[derive(Clone, Copy, Debug, PartialEq, Eq, Structural)]
pub struct ForkRollUpGraph {}

impl ForkRollUpGraph {
    /// How `a` relates to `b`, which is never known.
    pub fn relationship(&self, a: u64, b: u64) -> (relation: BlockRelation)
        ensures
            relation == BlockRelation::Unknown,
    {
        BlockRelation::Unknown
    }
}

/// The features that the runtime can have switched on.
#[verifier::external_type_specification]
#[verifier::external_body]
pub struct ExSVMFeatureSet(solana_svm_feature_set::SVMFeatureSet);

/// Collects the rent of accounts. The library only says that there is none.
#[verifier::external_type_specification]
#[verifier::external_body]
#[allow(deprecated)]
pub struct ExRentCollector(solana_sdk::rent_collector::RentCollector);

/// For each feature that `set` knows, in the order in which it declares them, whether it is on.
pub uninterp spec fn feature_flags(set: solana_svm_feature_set::SVMFeatureSet) -> Seq<bool>;

/// Every one of the features is on.
pub open spec fn all_features_on() -> Seq<bool> {
    Seq::new(39, |i: int| true)
}

/// Specifies `solana_svm_feature_set::SVMFeatureSet::all_enabled`: all features that the set knows
/// are on.
pub assume_specification[ solana_svm_feature_set::SVMFeatureSet::all_enabled ]() -> (set:
    solana_svm_feature_set::SVMFeatureSet)
    ensures
        feature_flags(set) == all_features_on(),
;

/// Calls `solana_fee_structure::FeeStructure::default` and takes the price of a signature. The
/// contract claims that it is 5000 lamports.
#[verifier::external_body]
fn default_lamports_per_signature() -> (lamports: u64)
    ensures
        lamports == 5000,
{
    solana_fee_structure::FeeStructure::default().lamports_per_signature
}

/// Calls `solana_sdk::hash::Hash::default`. The contract claims that all its bytes are zero.
#[verifier::external_body]
fn default_hash() -> (hash: [u8; 32])
    ensures
        hash@ == Seq::new(32, |i: int| 0u8),
{
    solana_sdk::hash::Hash::default().to_bytes()
}

/// The code behind a program that is built into the runtime.
#[derive(Clone, Copy, Debug, PartialEq, Eq, Structural)]
pub enum BuiltinEntrypoint {
    SystemProcessor,
    BpfLoader,
}

/// A program that is built into the runtime.
#[derive(Debug, PartialEq, Eq)]
pub struct Builtin {
    pub program_id: Pubkey,
    pub name: String,
    /// The slot from which the program counts as deployed. It can be called one slot later.
    pub deployment_slot: u64,
    pub account_size: usize,
    pub entrypoint: BuiltinEntrypoint,
}

/// What a batch processor is made with.
pub struct BatchProcessorSetup {
    pub slot: u64,
    pub epoch: u64,
    pub feature_set: solana_svm_feature_set::SVMFeatureSet,
    pub compute_budget: SVMTransactionExecutionBudget,
    pub reject_deployment_of_broken_elfs: bool,
    pub debugging_features: bool,
    /// The programs that it is given, in this order.
    pub builtins: Vec<Builtin>,
}

/// Whether `builtin` is the system program, deployed in slot zero.
pub open spec fn is_system_builtin(builtin: Builtin) -> bool {
    &&& builtin.program_id == crate::pubkey::system_program_address()
    &&& builtin.name@ == "system_program"@
    &&& builtin.deployment_slot == 0
    &&& builtin.account_size == 14
    &&& builtin.entrypoint == BuiltinEntrypoint::SystemProcessor
}

/// Whether `builtin` is the second BPF loader, deployed in slot zero.
pub open spec fn is_bpf_loader_builtin(builtin: Builtin) -> bool {
    &&& builtin.program_id == crate::pubkey::bpf_loader_address()
    &&& builtin.name@ == "solana_bpf_loader_program"@
    &&& builtin.deployment_slot == 0
    &&& builtin.account_size == 25
    &&& builtin.entrypoint == BuiltinEntrypoint::BpfLoader
}

impl BatchProcessorSetup {
    /// Whether this is the setup for a roll-up with the given features and budget.
    pub open spec fn is_for(
        self,
        feature_set: solana_svm_feature_set::SVMFeatureSet,
        compute_budget: SVMTransactionExecutionBudget,
    ) -> bool {
        &&& self.slot == 1
        &&& self.epoch == 1
        &&& self.feature_set == feature_set
        &&& self.compute_budget == compute_budget
        &&& !self.reject_deployment_of_broken_elfs
        &&& !self.debugging_features
        &&& self.builtins@.len() == 2
        &&& is_system_builtin(self.builtins@[0])
        &&& is_bpf_loader_builtin(self.builtins@[1])
    }
}

/// The processor for a roll-up: at slot one, since what is deployed in slot zero can be called
/// from the next slot on, with the system program and the second BPF loader, which token
/// transfers need.
pub fn create_transaction_batch_processor(
    feature_set: solana_svm_feature_set::SVMFeatureSet,
    compute_budget: SVMTransactionExecutionBudget,
) -> (setup: BatchProcessorSetup)
    ensures
        setup.is_for(feature_set, compute_budget),
        setup.slot == 1,
        setup.epoch == 1,
        setup.feature_set == feature_set,
        setup.compute_budget == compute_budget,
        !setup.reject_deployment_of_broken_elfs,
        !setup.debugging_features,
        setup.builtins@.len() == 2,
        setup.builtins@[0].program_id == crate::pubkey::system_program_address(),
        setup.builtins@[0].name@ == "system_program"@,
        setup.builtins@[0].deployment_slot == 0,
        setup.builtins@[0].entrypoint == BuiltinEntrypoint::SystemProcessor,
        setup.builtins@[1].program_id == crate::pubkey::bpf_loader_address(),
        setup.builtins@[1].name@ == "solana_bpf_loader_program"@,
        setup.builtins@[1].deployment_slot == 0,
        setup.builtins@[1].entrypoint == BuiltinEntrypoint::BpfLoader,
        setup.builtins@[0].account_size == setup.builtins@[0].name@.len(),
        setup.builtins@[1].account_size == setup.builtins@[1].name@.len(),
{
    proof {
        reveal_strlit("system_program");
        reveal_strlit("solana_bpf_loader_program");
    }
    let mut builtins: Vec<Builtin> = Vec::new();
    builtins.push(
        Builtin {
            program_id: system_program_id(),
            name: "system_program".to_string(),
            deployment_slot: 0,
            account_size: 14,
            entrypoint: BuiltinEntrypoint::SystemProcessor,
        },
    );
    builtins.push(
        Builtin {
            program_id: bpf_loader_id(),
            name: "solana_bpf_loader_program".to_string(),
            deployment_slot: 0,
            account_size: 25,
            entrypoint: BuiltinEntrypoint::BpfLoader,
        },
    );
    BatchProcessorSetup {
        slot: 1,
        epoch: 1,
        feature_set,
        compute_budget,
        reject_deployment_of_broken_elfs: false,
        debugging_features: false,
        builtins,
    }
}

/// Every program of a roll-up can be called in the slot of its processor, has an account as large
/// as its name is long, and is found under an address of its own.
pub proof fn law_builtins_can_be_called(
    setup: BatchProcessorSetup,
    feature_set: solana_svm_feature_set::SVMFeatureSet,
    compute_budget: SVMTransactionExecutionBudget,
)
    requires
        setup.is_for(feature_set, compute_budget),
    ensures
        forall|i: int|
            0 <= i < setup.builtins@.len() ==> {
                &&& (#[trigger] setup.builtins@[i]).deployment_slot + 1 <= setup.slot
                &&& setup.builtins@[i].account_size == setup.builtins@[i].name@.len()
            },
        forall|i: int, j: int|
            0 <= i < j < setup.builtins@.len() ==> (#[trigger] setup.builtins@[i]).program_id != (
            #[trigger] setup.builtins@[j]).program_id,
{
    reveal_strlit("system_program");
    reveal_strlit("solana_bpf_loader_program");
    assert(crate::pubkey::system_program_address().bytes@[0] == 0);
    assert(crate::pubkey::bpf_loader_address().bytes@[0] == 2);
}

/// What the transactions of a roll-up find around them.
#[allow(deprecated)]
pub struct TransactionProcessingEnvironment {
    pub blockhash: [u8; 32],
    pub blockhash_lamports_per_signature: u64,
    pub epoch_total_stake: u64,
    pub feature_set: solana_svm_feature_set::SVMFeatureSet,
    pub rent_collector: Option<solana_sdk::rent_collector::RentCollector>,
}

/// What a batch of transactions is run with.
#[allow(deprecated)]
pub struct RollUpBatch {
    /// The transactions, each as far as it is in order.
    pub transactions: Vec<
        Result<
            solana_sdk::transaction::SanitizedTransaction,
            solana_sdk::transaction::TransactionError,
        >,
    >,
    /// The outcome of the checks before the run, one for each transaction.
    pub check_results: Vec<
        Result<CheckedTransactionDetails, solana_sdk::transaction::TransactionError>,
    >,
    pub processor: BatchProcessorSetup,
    pub environment: TransactionProcessingEnvironment,
}

/// The forms of `transactions` that the runtime takes, in order, each as far as it is in order.
#[allow(deprecated)]
fn sanitize_all(transactions: &[Transaction]) -> (outcomes: Vec<
    Result<
        solana_sdk::transaction::SanitizedTransaction,
        solana_sdk::transaction::TransactionError,
    >,
>)
    requires
        forall|i: int|
            0 <= i < transactions@.len() ==> ((#[trigger] transactions@[i])@.sanitized()
                ==> transactions@[i]@.message.encodable()),
    ensures
        outcomes@.len() == transactions@.len(),
        forall|i: int|
            0 <= i < transactions@.len() ==> {
                &&& #[trigger] outcomes@[i] == crate::message::sanitize_outcome(transactions@[i]@)
                &&& outcomes@[i] is Ok <==> transactions@[i]@.sanitized()
            },
{
    let mut outcomes: Vec<
        Result<
            solana_sdk::transaction::SanitizedTransaction,
            solana_sdk::transaction::TransactionError,
        >,
    > = Vec::new();
    let mut i: usize = 0;
    while i < transactions.len()
        invariant
            i <= transactions.len(),
            outcomes@.len() == i,
            forall|j: int|
                0 <= j < transactions@.len() ==> ((#[trigger] transactions@[j])@.sanitized()
                    ==> transactions@[j]@.message.encodable()),
            forall|j: int|
                0 <= j < i ==> {
                    &&& #[trigger] outcomes@[j] == crate::message::sanitize_outcome(
                        transactions@[j]@,
                    )
                    &&& outcomes@[j] is Ok <==> transactions@[j]@.sanitized()
                },
        decreases transactions.len() - i,
    {
        outcomes.push(sanitize(&transactions[i]));
        i += 1;
    }
    outcomes
}

/// What became of a transaction that the runtime took.
#[derive(Clone, Copy, Debug, PartialEq, Eq, Structural)]
pub enum ProcessedTransaction {
    /// It ran, whether it succeeded or failed.
    Executed { executed_units: u64 },
    /// It could not be loaded, and paid its fees.
    FeesOnly,
}

impl ProcessedTransaction {
    /// The compute units that it used.
    pub open spec fn units(self) -> u64 {
        match self {
            ProcessedTransaction::Executed { executed_units } => executed_units,
            ProcessedTransaction::FeesOnly => 0,
        }
    }

    /// The compute units that it used: none where it did not run.
    pub fn executed_units(&self) -> (units: u64)
        ensures
            units == self.units(),
            forall|n: u64|
                *self == (ProcessedTransaction::Executed { executed_units: n }) ==> units == n,
            self is FeesOnly ==> units == 0,
    {
        match self {
            ProcessedTransaction::Executed { executed_units } => *executed_units,
            ProcessedTransaction::FeesOnly => 0,
        }
    }
}

/// Runs transactions through a client, on behalf of the holders of some keys.
pub struct RollUpChannel<K, C> {
    pub keys: Vec<K>,
    pub rpc_client: C,
}

impl<K, C> RollUpChannel<K, C> {
    /// A channel for `keys` through `rpc_client`.
    pub fn new(keys: Vec<K>, rpc_client: C) -> (channel: Self)
        ensures
            channel.keys == keys,
            channel.rpc_client == rpc_client,
    {
        RollUpChannel { keys, rpc_client }
    }

    /// The accounts of one batch: none yet, to be fetched through the client of the channel.
    pub fn account_loader(&self) -> (loader: RollUpAccountLoader<'_, C>)
        ensures
            loader@ == Map::<Pubkey, AccountView>::empty(),
            loader.client() == &self.rpc_client,
    {
        RollUpAccountLoader::new(&self.rpc_client)
    }

    /// What `transactions` are run with: each in the form that the runtime takes, with passed
    /// checks; all features, the default budget, an empty recent block, no stake and no rent.
    pub fn prepare_rollup_transfers(&self, transactions: &[Transaction]) -> (batch: RollUpBatch)
        requires
            forall|i: int|
                0 <= i < transactions@.len() ==> ((#[trigger] transactions@[i])@.sanitized()
                    ==> transactions@[i]@.message.encodable()),
        ensures
            batch.transactions@.len() == transactions@.len(),
            forall|i: int|
                0 <= i < transactions@.len() ==> {
                    &&& #[trigger] batch.transactions@[i] == crate::message::sanitize_outcome(
                        transactions@[i]@,
                    )
                    &&& batch.transactions@[i] is Ok <==> transactions@[i]@.sanitized()
                },
            batch.check_results@.len() == transactions@.len(),
            forall|i: int|
                0 <= i < transactions@.len() ==> #[trigger] batch.check_results@[i] == Ok::<
                    CheckedTransactionDetails,
                    solana_sdk::transaction::TransactionError,
                >(crate::budget::rollup_check()),
            batch.processor.is_for(batch.environment.feature_set, crate::budget::default_budget()),
            batch.processor.slot == 1,
            batch.processor.epoch == 1,
            batch.processor.feature_set == batch.environment.feature_set,
            batch.processor.compute_budget.compute_unit_limit == 1_400_000,
            batch.processor.compute_budget.heap_size == 32_768,
            batch.processor.builtins@.len() == 2,
            feature_flags(batch.environment.feature_set) == all_features_on(),
            batch.environment.blockhash@ == Seq::new(32, |i: int| 0u8),
            batch.environment.blockhash_lamports_per_signature == 5000,
            batch.environment.epoch_total_stake == 0,
            batch.environment.rent_collector is None,
    {
        let compute_budget = default_execution_budget();
        let feature_set = solana_svm_feature_set::SVMFeatureSet::all_enabled();
        RollUpBatch {
            transactions: sanitize_all(transactions),
            check_results: get_transaction_check_results(transactions.len()),
            processor: create_transaction_batch_processor(feature_set, compute_budget),
            environment: TransactionProcessingEnvironment {
                blockhash: default_hash(),
                blockhash_lamports_per_signature: default_lamports_per_signature(),
                epoch_total_stake: 0,
                feature_set,
                rent_collector: None,
            },
        }
    }

    /// The compute units that each transaction of a batch used, where the runtime took them all.
    #[allow(deprecated)]
    pub fn process_rollup_transfers(
        &self,
        processing_results: &Vec<
            Result<ProcessedTransaction, solana_sdk::transaction::TransactionError>,
        >,
    ) -> (units: Vec<u64>)
        requires
            forall|i: int|
                0 <= i < processing_results@.len() ==> #[trigger] processing_results@[i] is Ok,
        ensures
            units@.len() == processing_results@.len(),
            forall|i: int|
                0 <= i < units@.len() ==> #[trigger] units@[i]
                    == processing_results@[i]->Ok_0.units(),
            forall|i: int|
                0 <= i < units@.len() && processing_results@[i]->Ok_0 is Executed
                    ==> #[trigger] units@[i] == processing_results@[i]->Ok_0->executed_units,
            forall|i: int|
                0 <= i < units@.len() && processing_results@[i]->Ok_0 is FeesOnly
                    ==> #[trigger] units@[i] == 0,
    {
        let mut units: Vec<u64> = Vec::new();
        let mut i: usize = 0;
        while i < processing_results.len()
            invariant
                i <= processing_results.len(),
                units@.len() == i,
                forall|j: int|
                    0 <= j < processing_results@.len() ==> #[trigger] processing_results@[j] is Ok,
                forall|j: int|
                    0 <= j < i ==> #[trigger] units@[j] == processing_results@[j]->Ok_0.units(),
                forall|j: int|
                    0 <= j < i && processing_results@[j]->Ok_0 is Executed
                        ==> #[trigger] units@[j] == processing_results@[j]->Ok_0->executed_units,
                forall|j: int|
                    0 <= j < i && processing_results@[j]->Ok_0 is FeesOnly
                        ==> #[trigger] units@[j] == 0,
            decreases processing_results.len() - i,
        {
            assert(processing_results@[i as int] is Ok);
            match &processing_results[i] {
                Ok(transaction) => units.push(transaction.executed_units()),
                Err(_) => {},
            }
            i += 1;
        }
        units
    }
}

/// The units of a transaction that ran are those that it ran with, whatever their number, and one
/// that only paid its fees used none. So different numbers of units stay different.
pub proof fn law_units_are_those_of_the_run(n: u64, m: u64)
    ensures
        (ProcessedTransaction::Executed { executed_units: n }).units() == n,
        ProcessedTransaction::FeesOnly.units() == 0,
        (ProcessedTransaction::Executed { executed_units: n }).units() == (
        ProcessedTransaction::Executed { executed_units: m }).units() ==> n == m,
{
}

/// What the setup of a roll-up processor says, value by value: slot and epoch one, the features and
/// the budget that it was asked for, no special treatment of programs, and the system program and
/// the second BPF loader, in this order, deployed in slot zero.
pub proof fn law_what_a_processor_is_set_up_with(
    setup: BatchProcessorSetup,
    feature_set: solana_svm_feature_set::SVMFeatureSet,
    compute_budget: SVMTransactionExecutionBudget,
)
    requires
        setup.is_for(feature_set, compute_budget),
    ensures
        setup.slot == 1 && setup.epoch == 1,
        setup.feature_set == feature_set && setup.compute_budget == compute_budget,
        !setup.reject_deployment_of_broken_elfs && !setup.debugging_features,
        setup.builtins@.len() == 2,
        setup.builtins@[0].program_id == crate::pubkey::system_program_address(),
        setup.builtins@[0].name@ == "system_program"@,
        setup.builtins@[0].entrypoint == BuiltinEntrypoint::SystemProcessor,
        setup.builtins@[1].program_id == crate::pubkey::bpf_loader_address(),
        setup.builtins@[1].name@ == "solana_bpf_loader_program"@,
        setup.builtins@[1].entrypoint == BuiltinEntrypoint::BpfLoader,
        setup.builtins@[0].deployment_slot == 0 && setup.builtins@[1].deployment_slot == 0,
{
}

/// A set with all features on has none off, and there are 39.
pub proof fn law_no_feature_is_off(i: int)
    requires
        0 <= i < 39,
    ensures
        all_features_on().len() == 39,
        all_features_on()[i],
{
}

} // verus!
