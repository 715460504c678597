//! The budgets that transactions of a roll-up run under.
use vstd::prelude::*;

use crate::loader::Account;
use crate::pubkey::Pubkey;

verus! {

/// Why the runtime refused a transaction. The library only carries such values.
#[verifier::external_type_specification]
#[verifier::external_body]
#[allow(deprecated)]
pub struct ExTransactionError(solana_sdk::transaction::TransactionError);

/// What a transaction asks of the runtime, or gets where it asks for nothing.
#[derive(Clone, Copy, Debug, PartialEq, Eq, Structural)]
pub struct ComputeBudgetLimits {
    pub updated_heap_bytes: u32,
    pub compute_unit_limit: u32,
    pub compute_unit_price: u64,
    pub loaded_accounts_bytes: u32,
}

/// The fees of a transaction, in lamports.
#[derive(Clone, Copy, Debug, PartialEq, Eq, Structural)]
pub struct FeeDetails {
    pub transaction_fee: u64,
    pub prioritization_fee: u64,
}

/// What a transaction may use while it runs.
#[derive(Clone, Copy, Debug, PartialEq, Eq, Structural)]
pub struct SVMTransactionExecutionBudget {
    pub compute_unit_limit: u64,
    pub max_instruction_stack_depth: usize,
    pub max_instruction_trace_length: usize,
    pub sha256_max_slices: u64,
    pub max_call_depth: usize,
    pub stack_frame_size: usize,
    pub max_cpi_instruction_size: usize,
    pub heap_size: u32,
}

/// What a transaction may use and load, and what it pays.
#[derive(Clone, Copy, Debug, PartialEq, Eq, Structural)]
pub struct SVMTransactionExecutionAndFeeBudgetLimits {
    pub budget: SVMTransactionExecutionBudget,
    pub loaded_accounts_data_size_limit: u32,
    pub fee_details: FeeDetails,
}

/// The nonce account that a transaction uses in place of a recent block.
#[derive(Debug, PartialEq, Eq)]
pub struct NonceInfo {
    pub address: Pubkey,
    pub account: Account,
}

/// What was found out about a transaction before it runs.
#[allow(deprecated)]
pub struct CheckedTransactionDetails {
    pub nonce: Option<NonceInfo>,
    pub compute_budget_and_limits: Result<
        SVMTransactionExecutionAndFeeBudgetLimits,
        solana_sdk::transaction::TransactionError,
    >,
}

/// The limits of a transaction that asks for none.
pub open spec fn default_limits() -> ComputeBudgetLimits {
    ComputeBudgetLimits {
        updated_heap_bytes: 32_768,
        compute_unit_limit: 1_400_000,
        compute_unit_price: 0,
        loaded_accounts_bytes: 67_108_864,
    }
}

/// The budget of a transaction that asks for none.
pub open spec fn default_budget() -> SVMTransactionExecutionBudget {
    SVMTransactionExecutionBudget {
        compute_unit_limit: 1_400_000,
        max_instruction_stack_depth: 5,
        max_instruction_trace_length: 64,
        sha256_max_slices: 20_000,
        max_call_depth: 64,
        stack_frame_size: 4_096,
        max_cpi_instruction_size: 1_280,
        heap_size: 32_768,
    }
}

/// The budget that `limits` give a transaction, which may load `size` bytes and pays `fees`.
pub open spec fn budget_and_limits(
    limits: ComputeBudgetLimits,
    size: u32,
    fees: FeeDetails,
) -> SVMTransactionExecutionAndFeeBudgetLimits {
    SVMTransactionExecutionAndFeeBudgetLimits {
        budget: SVMTransactionExecutionBudget {
            compute_unit_limit: limits.compute_unit_limit as u64,
            heap_size: limits.updated_heap_bytes,
            ..default_budget()
        },
        loaded_accounts_data_size_limit: size,
        fee_details: fees,
    }
}

/// Calls `solana_compute_budget::compute_budget_limits::ComputeBudgetLimits::default`. The
/// contract claims the values of its fields.
#[verifier::external_body]
fn default_compute_budget_limits() -> (limits: ComputeBudgetLimits)
    ensures
        limits == default_limits(),
{
    let limits = solana_compute_budget::compute_budget_limits::ComputeBudgetLimits::default();
    ComputeBudgetLimits {
        updated_heap_bytes: limits.updated_heap_bytes,
        compute_unit_limit: limits.compute_unit_limit,
        compute_unit_price: limits.compute_unit_price,
        loaded_accounts_bytes: limits.loaded_accounts_bytes.get(),
    }
}

/// Calls `solana_fee_structure::FeeDetails::default`. The contract claims that both fees are zero.
#[verifier::external_body]
fn default_fee_details() -> (fees: FeeDetails)
    ensures
        fees == (FeeDetails { transaction_fee: 0, prioritization_fee: 0 }),
{
    let fees = solana_fee_structure::FeeDetails::default();
    FeeDetails {
        transaction_fee: fees.transaction_fee(),
        prioritization_fee: fees.prioritization_fee(),
    }
}

/// Calls `solana_program_runtime::execution_budget::SVMTransactionExecutionBudget::default`. The
/// contract claims the values of its fields.
#[verifier::external_body]
pub(crate) fn default_execution_budget() -> (budget: SVMTransactionExecutionBudget)
    ensures
        budget == default_budget(),
{
    let b = solana_program_runtime::execution_budget::SVMTransactionExecutionBudget::default();
    SVMTransactionExecutionBudget {
        compute_unit_limit: b.compute_unit_limit,
        max_instruction_stack_depth: b.max_instruction_stack_depth,
        max_instruction_trace_length: b.max_instruction_trace_length,
        sha256_max_slices: b.sha256_max_slices,
        max_call_depth: b.max_call_depth,
        stack_frame_size: b.stack_frame_size,
        max_cpi_instruction_size: b.max_cpi_instruction_size,
        heap_size: b.heap_size,
    }
}

/// Calls `ComputeBudgetLimits::get_compute_budget_and_limits` of `solana_compute_budget`. The
/// contract claims that the compute unit limit and the heap size are those of `limits`, that the
/// size and the fees are handed on, and that the rest of the budget is the default one. The
/// outside types hold sizes that are not zero.
#[verifier::external_body]
fn get_compute_budget_and_limits(limits: &ComputeBudgetLimits, size: u32, fees: FeeDetails) -> (r:
    SVMTransactionExecutionAndFeeBudgetLimits)
    requires
        limits.loaded_accounts_bytes != 0,
        size != 0,
    ensures
        r == budget_and_limits(*limits, size, fees),
{
    let outside = solana_compute_budget::compute_budget_limits::ComputeBudgetLimits {
        updated_heap_bytes: limits.updated_heap_bytes, compute_unit_limit: limits.compute_unit_limit,
        compute_unit_price: limits.compute_unit_price,
        loaded_accounts_bytes: limits.loaded_accounts_bytes.try_into().unwrap(),
    };
    let paid = solana_fee_structure::FeeDetails::new(fees.transaction_fee, fees.prioritization_fee);
    let r = outside.get_compute_budget_and_limits(size.try_into().unwrap(), paid);
    let (b, loaded_accounts_data_size_limit, f) = (r.budget, r.loaded_accounts_data_size_limit.get(), r.fee_details);
    let fee_details = FeeDetails { transaction_fee: f.transaction_fee(), prioritization_fee: f.prioritization_fee() };
    let budget = SVMTransactionExecutionBudget {
        compute_unit_limit: b.compute_unit_limit, max_instruction_stack_depth: b.max_instruction_stack_depth,
        max_instruction_trace_length: b.max_instruction_trace_length, sha256_max_slices: b.sha256_max_slices, max_call_depth: b.max_call_depth,
        stack_frame_size: b.stack_frame_size, max_cpi_instruction_size: b.max_cpi_instruction_size, heap_size: b.heap_size,
    };
    SVMTransactionExecutionAndFeeBudgetLimits { budget, loaded_accounts_data_size_limit, fee_details }
}

/// What the check of a roll-up transaction finds: no nonce, and the default limits with no fees.
pub open spec fn rollup_check() -> CheckedTransactionDetails {
    CheckedTransactionDetails {
        nonce: None,
        compute_budget_and_limits: Ok(
            budget_and_limits(
                default_limits(),
                default_limits().loaded_accounts_bytes,
                FeeDetails { transaction_fee: 0, prioritization_fee: 0 },
            ),
        ),
    }
}

/// Takes the place of the checks that a bank makes before it hands transactions over: each of
/// `len` transactions passes, with no nonce, the default limits and no fees.
#[allow(deprecated)]
pub fn get_transaction_check_results(len: usize) -> (results: Vec<
    Result<CheckedTransactionDetails, solana_sdk::transaction::TransactionError>,
>)
    ensures
        results@.len() == len,
        forall|i: int| 0 <= i < len ==> #[trigger] results@[i] == Ok::<
            CheckedTransactionDetails,
            solana_sdk::transaction::TransactionError,
        >(rollup_check()),
        forall|i: int|
            0 <= i < len ==> {
                &&& (#[trigger] results@[i]) matches Ok(details)
                &&& details.nonce is None
                &&& details.compute_budget_and_limits matches Ok(limits)
                &&& limits.budget.compute_unit_limit == 1_400_000
                &&& limits.budget.heap_size == 32_768
                &&& limits.loaded_accounts_data_size_limit == 67_108_864
                &&& limits.fee_details.transaction_fee == 0
                &&& limits.fee_details.prioritization_fee == 0
            },
{
    let compute_budget_limit = default_compute_budget_limits();
    let limits = get_compute_budget_and_limits(
        &compute_budget_limit,
        compute_budget_limit.loaded_accounts_bytes,
        default_fee_details(),
    );
    let mut results: Vec<
        Result<CheckedTransactionDetails, solana_sdk::transaction::TransactionError>,
    > = Vec::new();
    while results.len() < len
        invariant
            results@.len() <= len,
            limits == rollup_check().compute_budget_and_limits->Ok_0,
            forall|i: int| 0 <= i < results@.len() ==> #[trigger] results@[i] == Ok::<
                CheckedTransactionDetails,
                solana_sdk::transaction::TransactionError,
            >(rollup_check()),
        decreases len - results@.len(),
    {
        results.push(
            Ok(CheckedTransactionDetails { nonce: None, compute_budget_and_limits: Ok(limits) }),
        );
    }
    results
}

/// A budget takes its compute units and its heap from the limits, is handed the size and the fees,
/// and has everything else as any transaction does.
pub proof fn law_budget_follows_the_limits(limits: ComputeBudgetLimits, size: u32, fees: FeeDetails)
    ensures
        ({
            let given = budget_and_limits(limits, size, fees);
            &&& given.budget.compute_unit_limit == limits.compute_unit_limit
            &&& given.budget.heap_size == limits.updated_heap_bytes
            &&& given.budget.max_instruction_stack_depth == 5
            &&& given.budget.max_instruction_trace_length == 64
            &&& given.budget.sha256_max_slices == 20_000
            &&& given.budget.max_call_depth == 64
            &&& given.budget.stack_frame_size == 4_096
            &&& given.budget.max_cpi_instruction_size == 1_280
            &&& given.loaded_accounts_data_size_limit == size
            &&& given.fee_details.transaction_fee == fees.transaction_fee
            &&& given.fee_details.prioritization_fee == fees.prioritization_fee
        }),
{
}

/// A roll-up transaction passes its check without a nonce, under the limits of a transaction that
/// asks for none, and pays nothing.
pub proof fn law_what_a_rollup_transaction_may_use()
    ensures
        rollup_check().nonce is None,
        rollup_check().compute_budget_and_limits matches Ok(limits) && {
            &&& limits.budget == default_budget()
            &&& limits.budget.compute_unit_limit == 1_400_000
            &&& limits.budget.heap_size == 32 * 1024
            &&& limits.loaded_accounts_data_size_limit == 64 * 1024 * 1024
            &&& limits.fee_details.transaction_fee == 0
            &&& limits.fee_details.prioritization_fee == 0
        },
        default_limits().compute_unit_limit == 1_400_000,
        default_limits().updated_heap_bytes == 32 * 1024,
        default_limits().compute_unit_price == 0,
        default_limits().loaded_accounts_bytes == 64 * 1024 * 1024,
{
}

} // verus!
