//! Estimating the compute units that a message or a transaction needs.
//!
//! For a message, a client builds a request with `simulation_request`, signs and sends it, and
//! reads the reply with `estimate_compute_units_msg`. For a transaction it runs the transaction on
//! the channel that `rollup_channel` gives, and reads the outcome with
//! `estimate_compute_units_unsigned_tx`.
use vstd::prelude::*;

use crate::error::SolanaClientExtError;
use crate::message::{Message, MessageView, Transaction, TransactionView};
use crate::pubkey::Pubkey;
use crate::rollup::{ProcessedTransaction, RollUpChannel};

verus! {

/// What a client signs and sends to have a message simulated.
#[derive(Debug, PartialEq, Eq)]
pub struct SimulationRequest {
    /// The transaction to sign and simulate.
    pub transaction: Transaction,
    /// Whether the simulation checks the signatures.
    pub sig_verify: bool,
}

/// The request that simulates `msg`: its transaction, not signed yet, with signatures checked.
pub fn simulation_request(msg: &Message) -> (request: SimulationRequest)
    ensures
        request.transaction@ == msg@.unsigned(),
        request.sig_verify,
        request.transaction.signatures@.len() == msg.header.num_required_signatures,
        forall|i: int, j: int|
            0 <= i < request.transaction.signatures@.len() && 0 <= j < 64
                ==> #[trigger] request.transaction.signatures@[i].bytes@[j] == 0,
        request.transaction.message.header == msg.header,
        request.transaction.message.account_keys@ == msg.account_keys@,
        request.transaction.message.recent_blockhash == msg.recent_blockhash,
        request.transaction.message.instructions@.len() == msg.instructions@.len(),
        forall|i: int|
            0 <= i < msg.instructions@.len() ==> {
                &&& (#[trigger] request.transaction.message.instructions@[i]).program_id_index
                    == msg.instructions@[i].program_id_index
                &&& request.transaction.message.instructions@[i].accounts@
                    == msg.instructions@[i].accounts@
                &&& request.transaction.message.instructions@[i].data@ == msg.instructions@[i].data@
            },
{
    SimulationRequest { transaction: Transaction::new_unsigned(msg.clone()), sig_verify: true }
}

/// Whether `estimate` is what a simulation that reports `units_consumed` gives: the units; or, where
/// it reports none or no units at all, the failure that says so.
pub open spec fn is_estimate(
    units_consumed: Option<u64>,
    estimate: Result<u64, SolanaClientExtError>,
) -> bool {
    match units_consumed {
        None => estimate matches Err(SolanaClientExtError::ComputeUnitsError(text)) && text@
            == "Missing Compute Units from transaction simulation."@,
        Some(units) => if units == 0 {
            estimate matches Err(SolanaClientExtError::RpcError(text)) && text@
                == "Transaction simulation failed."@
        } else {
            estimate == Ok::<u64, SolanaClientExtError>(units)
        },
    }
}

/// The estimate that a simulation gives: the units that it reports as consumed. A report without
/// units, or of no units at all, is a failure.
pub fn estimate_compute_units_msg(units_consumed: Option<u64>) -> (estimate: Result<
    u64,
    SolanaClientExtError,
>)
    ensures
        is_estimate(units_consumed, estimate),
        forall|units: u64|
            estimate == Ok::<u64, SolanaClientExtError>(units) <==> units != 0 && units_consumed
                == Some(units),
        estimate matches Err(SolanaClientExtError::ComputeUnitsError(_)) <==> units_consumed is None,
        estimate matches Err(SolanaClientExtError::RpcError(_)) <==> units_consumed == Some(0u64),
        estimate matches Err(SolanaClientExtError::ComputeUnitsError(text)) ==> text@
            == "Missing Compute Units from transaction simulation."@,
        estimate matches Err(SolanaClientExtError::RpcError(text)) ==> text@
            == "Transaction simulation failed."@,
{
    let consumed_cu = match units_consumed {
        Some(units) => units,
        None => {
            return Err(
                SolanaClientExtError::ComputeUnitsError(
                    "Missing Compute Units from transaction simulation.".to_string(),
                ),
            );
        },
    };
    if consumed_cu == 0 {
        return Err(SolanaClientExtError::RpcError("Transaction simulation failed.".to_string()));
    }
    Ok(consumed_cu)
}

/// Whether two estimates are the same: both fail in the same way with the same text, or both give
/// the same units.
pub open spec fn same_estimate(
    first: Result<u64, SolanaClientExtError>,
    second: Result<u64, SolanaClientExtError>,
) -> bool {
    match (first, second) {
        (Ok(units), Ok(other)) => units == other,
        (
            Err(SolanaClientExtError::ComputeUnitsError(text)),
            Err(SolanaClientExtError::ComputeUnitsError(other)),
        ) => text@ == other@,
        (
            Err(SolanaClientExtError::RpcError(text)),
            Err(SolanaClientExtError::RpcError(other)),
        ) => text@ == other@,
        _ => false,
    }
}

/// The recent block of a message does not matter for its estimate. Signing puts the transactions of
/// two messages that differ in nothing else on the latest block, and then they are equal. So a
/// simulation that depends on what it is sent alone gives both the same estimate.
pub proof fn law_recent_block_does_not_matter(
    message: MessageView,
    other_block: [u8; 32],
    latest_block: [u8; 32],
    simulation: spec_fn(TransactionView, bool) -> Option<u64>,
    first: Result<u64, SolanaClientExtError>,
    second: Result<u64, SolanaClientExtError>,
)
    requires
        is_estimate(simulation(message.unsigned().on_block(latest_block), true), first),
        is_estimate(
            simulation(message.on_block(other_block).unsigned().on_block(latest_block), true),
            second,
        ),
    ensures
        message.unsigned().on_block(latest_block) == message.on_block(
            other_block,
        ).unsigned().on_block(latest_block),
        same_estimate(first, second),
{
}

/// The channel on which `transaction` is run: that of the accounts which it names.
pub fn rollup_channel<C>(transaction: &Transaction, rpc_client: C) -> (channel: RollUpChannel<
    Pubkey,
    C,
>)
    ensures
        channel.keys@ == transaction@.message.account_keys,
        channel.keys@ == transaction.message.account_keys@,
        channel.rpc_client == rpc_client,
{
    let keys = transaction.message.account_keys.clone();
    assert(keys@ =~= transaction@.message.account_keys);
    RollUpChannel::new(keys, rpc_client)
}

/// The estimate that a run of one transaction on `channel` gives: the units that it used.
#[allow(deprecated)]
pub fn estimate_compute_units_unsigned_tx<K, C>(
    channel: &RollUpChannel<K, C>,
    processing_results: &Vec<
        Result<ProcessedTransaction, solana_sdk::transaction::TransactionError>,
    >,
) -> (estimate: Result<u64, SolanaClientExtError>)
    requires
        processing_results@.len() == 1,
        processing_results@[0] is Ok,
    ensures
        estimate == Ok::<u64, SolanaClientExtError>(processing_results@[0]->Ok_0.units()),
        forall|units: u64|
            processing_results@[0]->Ok_0 == (ProcessedTransaction::Executed { executed_units: units })
                ==> estimate == Ok::<u64, SolanaClientExtError>(units),
        processing_results@[0]->Ok_0 is FeesOnly ==> estimate == Ok::<u64, SolanaClientExtError>(0),
{
    let used_cu = channel.process_rollup_transfers(processing_results);
    Ok(used_cu[0])
}

/// A simulation that reports units gives them as the estimate, whatever their number, and gives no
/// other. It fails exactly where it reports none or zero, and each of the two in its own way.
pub proof fn law_estimate_is_what_was_consumed(
    units_consumed: Option<u64>,
    estimate: Result<u64, SolanaClientExtError>,
    units: u64,
)
    requires
        is_estimate(units_consumed, estimate),
    ensures
        units_consumed == Some(units) && units != 0 ==> estimate == Ok::<u64, SolanaClientExtError>(
            units,
        ),
        estimate == Ok::<u64, SolanaClientExtError>(units) ==> units_consumed == Some(units) && units
            != 0,
        units_consumed is None <==> estimate matches Err(SolanaClientExtError::ComputeUnitsError(_)),
        units_consumed == Some(0u64) <==> estimate matches Err(SolanaClientExtError::RpcError(_)),
        estimate matches Err(SolanaClientExtError::ComputeUnitsError(text)) ==> text@
            == "Missing Compute Units from transaction simulation."@,
        estimate matches Err(SolanaClientExtError::RpcError(text)) ==> text@
            == "Transaction simulation failed."@,
{
}

/// Estimates are the same where they agree on success, on the units, on the kind of failure and on
/// its text.
pub proof fn law_same_estimates_agree(
    first: Result<u64, SolanaClientExtError>,
    second: Result<u64, SolanaClientExtError>,
)
    requires
        same_estimate(first, second),
    ensures
        first is Ok <==> second is Ok,
        first is Ok ==> first == second,
        first matches Err(SolanaClientExtError::ComputeUnitsError(text)) ==> (second matches Err(
            SolanaClientExtError::ComputeUnitsError(other),
        ) && text@ == other@),
        first matches Err(SolanaClientExtError::RpcError(text)) ==> (second matches Err(
            SolanaClientExtError::RpcError(other),
        ) && text@ == other@),
{
}

} // verus!
