//! Requesting the compute units that a transaction needs, and no more.
//!
//! Optimizing a message appends the compute budget program to its keys and puts an instruction
//! that sets the compute unit limit before all others.
use vstd::prelude::*;

use crate::error::OptimizeError;
use crate::message::{
    compile_instruction, AccountMeta, CompiledInstructionView, Instruction, Message, MessageView,
    Transaction, TransactionView,
};
use crate::pubkey::{compute_budget_id, Pubkey};

verus! {

/// The four bytes of `n`, the lowest first.
pub open spec fn le_bytes(n: u32) -> Seq<u8> {
    seq![
        (n % 0x100) as u8,
        (n / 0x100 % 0x100) as u8,
        (n / 0x1_0000 % 0x100) as u8,
        (n / 0x100_0000) as u8,
    ]
}

/// The data of the instruction that sets the compute unit limit to `limit`: its number among the
/// compute budget instructions, then the limit.
pub open spec fn limit_data(limit: u32) -> Seq<u8> {
    seq![2u8] + le_bytes(limit)
}

/// The limit that the data of an instruction sets, where it is one that sets the limit.
pub open spec fn requested_limit(data: Seq<u8>) -> Option<int> {
    if data.len() == 5 && data[0] == 2 {
        Some(data[1] + 0x100 * data[2] + 0x1_0000 * data[3] + 0x100_0000 * data[4])
    } else {
        None
    }
}

/// Calls `solana_sdk::compute_budget::ComputeBudgetInstruction::set_compute_unit_limit`. The
/// contract claims that the instruction calls the compute budget program with no accounts and
/// that its data is the number of the instruction and then the limit, lowest byte first.
#[verifier::external_body]
fn set_compute_unit_limit(units: u32) -> (instruction: Instruction)
    ensures
        instruction.program_id == crate::pubkey::compute_budget_address(),
        instruction.accounts@ == Seq::<AccountMeta>::empty(),
        instruction.data@ == limit_data(units),
{
    let ix = solana_sdk::compute_budget::ComputeBudgetInstruction::set_compute_unit_limit(units);
    let address = |key: solana_sdk::pubkey::Pubkey| Pubkey { bytes: key.to_bytes() };
    let metas = ix.accounts.iter().map(|meta| AccountMeta {
        pubkey: address(meta.pubkey), is_signer: meta.is_signer, is_writable: meta.is_writable,
    });
    Instruction { program_id: address(ix.program_id), accounts: metas.collect(), data: ix.data }
}

impl MessageView {
    /// This message with the instruction that sets the compute unit limit to `limit` in front.
    pub open spec fn with_compute_unit_limit(self, limit: u32) -> MessageView {
        let program = crate::pubkey::compute_budget_address();
        let keys = self.account_keys.push(program);
        let request = CompiledInstructionView {
            program_id_index: crate::message::key_index(keys, program),
            accounts: Seq::empty(),
            data: limit_data(limit),
        };
        MessageView {
            header: self.header,
            account_keys: keys,
            recent_blockhash: self.recent_blockhash,
            instructions: seq![request] + self.instructions,
        }
    }
}

/// Puts the instruction that sets the compute unit limit to `limit` in front of `message`.
fn request_compute_units(message: &mut Message, limit: u32)
    ensures
        final(message)@ == old(message)@.with_compute_unit_limit(limit),
        final(message).header == old(message).header,
        final(message).recent_blockhash == old(message).recent_blockhash,
        final(message).account_keys@ == old(message).account_keys@.push(
            crate::pubkey::compute_budget_address(),
        ),
        final(message).instructions@.len() == old(message).instructions@.len() + 1,
        final(message).instructions@.drop_first() == old(message).instructions@,
        final(message).instructions@[0].accounts@.len() == 0,
        final(message).instructions@[0].data@ == limit_data(limit),
{
    let optimize_ix = set_compute_unit_limit(limit);
    message.account_keys.push(compute_budget_id());
    proof {
        let keys = message.account_keys@;
        assert(keys[keys.len() - 1] == optimize_ix.program_id);
    }
    let compiled_ix = compile_instruction(&message.account_keys, &optimize_ix);
    message.instructions.insert(0, compiled_ix);
    proof {
        let expected = old(message)@.with_compute_unit_limit(limit);
        assert(compiled_ix@ =~= expected.instructions[0]);
        assert(message@.instructions =~= expected.instructions);
        assert(message.instructions@.drop_first() =~= old(message).instructions@);
    }
}

/// The limit requested for a message that is estimated at `units`: room for the added
/// instruction, which costs 150 units itself.
pub open spec fn message_limit(units: u32) -> u32 {
    if units + 150 <= u32::MAX {
        (units + 150) as u32
    } else {
        u32::MAX
    }
}

/// The limit requested for a transaction that is estimated at `units`: twenty more for each full
/// hundred.
pub open spec fn transaction_limit(units: u32) -> u32 {
    if units + units / 100 * 20 <= u32::MAX {
        (units + units / 100 * 20) as u32
    } else {
        u32::MAX
    }
}

/// Requests the compute units for `message` that `estimate` says it needs, with a margin of 150.
/// Returns the estimate. Where there is none, or it does not fit, the message stays as it was.
pub fn optimize_compute_units_msg<E>(
    message: &mut Message,
    estimate: Result<u64, E>,
) -> (optimized: Result<u32, OptimizeError<E>>)
    ensures
        match estimate {
            Err(error) => {
                &&& optimized == Err::<u32, OptimizeError<E>>(OptimizeError::Estimate(error))
                &&& *final(message) == *old(message)
            },
            Ok(units) => if units > u32::MAX {
                &&& optimized matches Err(OptimizeError::UnitsOutOfRange(_))
                &&& *final(message) == *old(message)
            } else {
                &&& optimized == Ok::<u32, OptimizeError<E>>(units as u32)
                &&& final(message)@ == old(message)@.with_compute_unit_limit(
                    message_limit(units as u32),
                )
                &&& final(message).header == old(message).header
                &&& final(message).recent_blockhash == old(message).recent_blockhash
                &&& final(message).account_keys@ == old(message).account_keys@.push(
                    crate::pubkey::compute_budget_address(),
                )
                &&& final(message).instructions@.len() == old(message).instructions@.len() + 1
                &&& final(message).instructions@.drop_first() == old(message).instructions@
                &&& final(message).instructions@[0].accounts@.len() == 0
                &&& final(message).instructions@[0].data@ == limit_data(
                    message_limit(units as u32),
                )
            },
        },
{
    let units = match estimate {
        Ok(units) => units,
        Err(error) => {
            return Err(OptimizeError::Estimate(error));
        },
    };
    let optimal_cu = match u32::try_from(units) {
        Ok(optimal_cu) => optimal_cu,
        Err(error) => {
            return Err(OptimizeError::UnitsOutOfRange(error));
        },
    };
    request_compute_units(message, optimal_cu.saturating_add(150));
    Ok(optimal_cu)
}

/// Requests the compute units for `transaction` that `estimate` says it needs, with a margin of
/// twenty for each full hundred. Returns the estimate. Where there is none, or it does not fit,
/// the transaction stays as it was. The signatures stay as they were in any case.
pub fn optimize_compute_units_unsigned_tx<E>(
    transaction: &mut Transaction,
    estimate: Result<u64, E>,
) -> (optimized: Result<u32, OptimizeError<E>>)
    ensures
        match estimate {
            Err(error) => {
                &&& optimized == Err::<u32, OptimizeError<E>>(OptimizeError::Estimate(error))
                &&& *final(transaction) == *old(transaction)
            },
            Ok(units) => if units > u32::MAX {
                &&& optimized matches Err(OptimizeError::UnitsOutOfRange(_))
                &&& *final(transaction) == *old(transaction)
            } else {
                &&& optimized == Ok::<u32, OptimizeError<E>>(units as u32)
                &&& final(transaction)@.signatures == old(transaction)@.signatures
                &&& final(transaction)@.message
                    == old(transaction)@.message.with_compute_unit_limit(
                    transaction_limit(units as u32),
                )
                &&& final(transaction).signatures@ == old(transaction).signatures@
                &&& final(transaction).message.header == old(transaction).message.header
                &&& final(transaction).message.recent_blockhash
                    == old(transaction).message.recent_blockhash
                &&& final(transaction).message.account_keys@
                    == old(transaction).message.account_keys@.push(
                    crate::pubkey::compute_budget_address(),
                )
                &&& final(transaction).message.instructions@.len()
                    == old(transaction).message.instructions@.len() + 1
                &&& final(transaction).message.instructions@.drop_first()
                    == old(transaction).message.instructions@
                &&& final(transaction).message.instructions@[0].accounts@.len() == 0
                &&& final(transaction).message.instructions@[0].data@ == limit_data(
                    transaction_limit(units as u32),
                )
            },
        },
{
    let units = match estimate {
        Ok(units) => units,
        Err(error) => {
            return Err(OptimizeError::Estimate(error));
        },
    };
    let optimal_cu = match u32::try_from(units) {
        Ok(optimal_cu) => optimal_cu,
        Err(error) => {
            return Err(OptimizeError::UnitsOutOfRange(error));
        },
    };
    request_compute_units(
        &mut transaction.message,
        optimal_cu.saturating_add(optimal_cu / 100 * 20),
    );
    Ok(optimal_cu)
}

/// Reading the limit back from the data of a request gives the limit that was requested.
pub proof fn law_requested_limit_reads_back(limit: u32)
    ensures
        requested_limit(limit_data(limit)) == Some(limit as int),
{
    let data = limit_data(limit);
    assert(data[1] == le_bytes(limit)[0]);
    assert(data[2] == le_bytes(limit)[1]);
    assert(data[3] == le_bytes(limit)[2]);
    assert(data[4] == le_bytes(limit)[3]);
}

/// Optimizing a message leaves its header and its recent block, keeps every key at its position,
/// and keeps the instructions, in order, behind the added one. So each instruction goes on naming
/// the accounts that it named.
pub proof fn law_optimizing_keeps_the_rest(message: MessageView, limit: u32)
    ensures
        ({
            let optimized = message.with_compute_unit_limit(limit);
            &&& optimized.header == message.header
            &&& optimized.recent_blockhash == message.recent_blockhash
            &&& optimized.account_keys.len() == message.account_keys.len() + 1
            &&& forall|i: int|
                0 <= i < message.account_keys.len() ==> #[trigger] optimized.account_keys[i]
                    == message.account_keys[i]
            &&& optimized.instructions.len() == message.instructions.len() + 1
            &&& forall|i: int|
                0 <= i < message.instructions.len() ==> #[trigger] optimized.instructions[i + 1]
                    == message.instructions[i]
        }),
{
}

/// Taking the first instruction and the last key away from an optimized message gives the message
/// back.
pub proof fn law_optimizing_can_be_undone(message: MessageView, limit: u32)
    ensures
        ({
            let optimized = message.with_compute_unit_limit(limit);
            message == MessageView {
                header: optimized.header,
                account_keys: optimized.account_keys.drop_last(),
                recent_blockhash: optimized.recent_blockhash,
                instructions: optimized.instructions.drop_first(),
            }
        }),
{
    let optimized = message.with_compute_unit_limit(limit);
    assert(optimized.account_keys.drop_last() =~= message.account_keys);
    assert(optimized.instructions.drop_first() =~= message.instructions);
}

/// Whether the compute budget program, once appended to `keys`, can be named by one byte.
pub open spec fn program_is_nameable(keys: Seq<Pubkey>) -> bool {
    keys.len() < 256 || exists|i: int|
        0 <= i < 256 && i < keys.len() && #[trigger] keys[i]
            == crate::pubkey::compute_budget_address()
}

/// The instruction that optimizing puts in front is a call of the compute budget program that
/// sets the limit asked for and names no account.
pub proof fn law_optimizing_requests_the_limit(message: MessageView, limit: u32)
    requires
        program_is_nameable(message.account_keys),
    ensures
        ({
            let optimized = message.with_compute_unit_limit(limit);
            let request = optimized.instructions[0];
            &&& request.program_id_index < optimized.account_keys.len()
            &&& optimized.account_keys[request.program_id_index as int]
                == crate::pubkey::compute_budget_address()
            &&& request.accounts.len() == 0
            &&& requested_limit(request.data) == Some(limit as int)
        }),
{
    let program = crate::pubkey::compute_budget_address();
    let keys = message.account_keys;
    crate::message::lemma_first_position(keys, program);
    crate::message::lemma_first_position_push(keys, program);
    crate::message::lemma_first_position(keys.push(program), program);
    assert(keys.push(program)[keys.len() as int] == program);
    law_requested_limit_reads_back(limit);
}

/// Optimizing a message that is in order leaves it in order, where the compute budget program can
/// be named and does not pay.
pub proof fn law_optimizing_keeps_order(message: MessageView, limit: u32)
    requires
        message.sanitized(),
        program_is_nameable(message.account_keys),
        message.account_keys[0] != crate::pubkey::compute_budget_address(),
    ensures
        message.with_compute_unit_limit(limit).sanitized(),
{
    let optimized = message.with_compute_unit_limit(limit);
    let program = crate::pubkey::compute_budget_address();
    law_optimizing_requests_the_limit(message, limit);
    law_optimizing_keeps_the_rest(message, limit);
    assert(optimized.account_keys[0] != program);
    assert forall|i: int| 0 <= i < optimized.instructions.len() implies (
    #[trigger] optimized.instructions[i]).in_order(optimized.account_keys.len()) by {
        if i > 0 {
            assert(optimized.instructions[(i - 1) + 1] == message.instructions[i - 1]);
            assert(message.instructions[i - 1].in_order(message.account_keys.len()));
        }
    }
}

/// Optimizing a transaction that is in order leaves it in order, under the same conditions: it has
/// as many signatures as before, and one key more.
pub proof fn law_optimizing_keeps_transactions_in_order(transaction: TransactionView, limit: u32)
    requires
        transaction.sanitized(),
        program_is_nameable(transaction.message.account_keys),
        transaction.message.account_keys[0] != crate::pubkey::compute_budget_address(),
    ensures
        (TransactionView {
            signatures: transaction.signatures,
            message: transaction.message.with_compute_unit_limit(limit),
        }).sanitized(),
{
    law_optimizing_keeps_order(transaction.message, limit);
}

/// The limits cover the estimate. That of a message exceeds it by 150, that of a transaction by a
/// fifth of it at most, and neither grows when the estimate falls.
pub proof fn law_limits_cover_the_estimate(units: u32, more: u32)
    requires
        units <= more,
    ensures
        units <= message_limit(units) <= units + 150,
        message_limit(units) < u32::MAX ==> message_limit(units) == units + 150,
        message_limit(units) <= message_limit(more),
        units <= transaction_limit(units),
        5 * (transaction_limit(units) - units) <= units,
        transaction_limit(units) < u32::MAX ==> transaction_limit(units) > units + units / 5 - 20,
        transaction_limit(units) <= transaction_limit(more),
{
}

/// A message that is estimated at `units` and optimized asks the compute budget program for what it
/// needs and at most 150 units more, a transaction for what it needs and at most a fifth more.
pub proof fn law_optimizing_requests_what_is_needed(message: MessageView, units: u32)
    requires
        program_is_nameable(message.account_keys),
    ensures
        ({
            let optimized = message.with_compute_unit_limit(message_limit(units));
            let request = optimized.instructions[0];
            &&& optimized.account_keys[request.program_id_index as int]
                == crate::pubkey::compute_budget_address()
            &&& requested_limit(request.data) matches Some(limit)
            &&& units <= limit <= units + 150
        }),
        ({
            let optimized = message.with_compute_unit_limit(transaction_limit(units));
            let request = optimized.instructions[0];
            &&& optimized.account_keys[request.program_id_index as int]
                == crate::pubkey::compute_budget_address()
            &&& requested_limit(request.data) matches Some(limit)
            &&& units <= limit <= units + units / 5
        }),
{
    law_optimizing_requests_the_limit(message, message_limit(units));
    law_optimizing_requests_the_limit(message, transaction_limit(units));
    law_limits_cover_the_estimate(units, units);
}

impl MessageView {
    /// Whether the header lets the instructions write to the account at position `i`: to signers
    /// but the last few, and to the others but the last few.
    pub open spec fn may_write(self, i: int) -> bool {
        let signers = self.header.num_required_signatures;
        ||| 0 <= i < signers - self.header.num_readonly_signed_accounts
        ||| signers <= i < self.account_keys.len() - self.header.num_readonly_unsigned_accounts
    }
}

/// Since the header stays and one key is appended, an account that may be written still may be,
/// the first of those that do not sign and were only read may be written too, and nothing changes
/// for the others.
pub proof fn law_optimizing_frees_one_account(message: MessageView, limit: u32, i: int)
    requires
        message.sanitized(),
        0 <= i < message.account_keys.len(),
    ensures
        message.with_compute_unit_limit(limit).may_write(i) <==> message.may_write(i) || i
            == message.account_keys.len() - message.header.num_readonly_unsigned_accounts,
{
}

/// Optimizing a message appends the compute budget program to its keys and puts one instruction in
/// front. That instruction names the first place where the program occurs, or what is left of it in
/// a byte, and no accounts; its data is a two and then the limit, lowest byte first.
pub proof fn law_what_optimizing_adds(message: MessageView, limit: u32, place: int)
    requires
        0 <= place <= message.account_keys.len(),
        place < message.account_keys.len() ==> message.account_keys[place]
            == crate::pubkey::compute_budget_address(),
        forall|i: int|
            0 <= i < place ==> message.account_keys[i] != crate::pubkey::compute_budget_address(),
    ensures
        ({
            let optimized = message.with_compute_unit_limit(limit);
            let request = optimized.instructions[0];
            &&& optimized.account_keys == message.account_keys.push(
                crate::pubkey::compute_budget_address(),
            )
            &&& optimized.instructions.len() == message.instructions.len() + 1
            &&& request.program_id_index as int == place % 256
            &&& request.accounts.len() == 0
            &&& request.data.len() == 5
            &&& request.data[0] == 2
            &&& request.data[1] + 0x100 * request.data[2] + 0x1_0000 * request.data[3] + 0x100_0000
                * request.data[4] == limit
        }),
{
    let program = crate::pubkey::compute_budget_address();
    let keys = message.account_keys.push(program);
    assert forall|i: int| 0 <= i < place implies keys[i] != program by {
        assert(keys[i] == message.account_keys[i]);
    }
    assert(keys[place] == program);
    crate::message::law_key_is_named_by_its_first_place(keys, program, place);
    law_limit_is_spelled_lowest_byte_first(limit);
}

/// The data of a request for a limit is a two and then the limit as four digits to the base 256,
/// the lowest first.
pub proof fn law_limit_is_spelled_lowest_byte_first(limit: u32)
    ensures
        limit_data(limit).len() == 5,
        limit_data(limit)[0] == 2,
        limit_data(limit)[1] + 0x100 * limit_data(limit)[2] + 0x1_0000 * limit_data(limit)[3]
            + 0x100_0000 * limit_data(limit)[4] == limit,
{
    let data = limit_data(limit);
    assert(data[1] == le_bytes(limit)[0]);
    assert(data[2] == le_bytes(limit)[1]);
    assert(data[3] == le_bytes(limit)[2]);
    assert(data[4] == le_bytes(limit)[3]);
}

/// The limit that data sets is read as a number to the base 256, lowest digit first, and only from
/// five bytes of which the first is a two.
pub proof fn law_how_a_limit_is_read(data: Seq<u8>, limit: int)
    ensures
        requested_limit(data) == Some(limit) <==> data.len() == 5 && data[0] == 2 && limit == data[1]
            + 0x100 * data[2] + 0x1_0000 * data[3] + 0x100_0000 * data[4],
        requested_limit(data) is None <==> data.len() != 5 || data[0] != 2,
{
}

/// The margin of a message is 150 units, that of a transaction twenty for each full hundred, and a
/// limit that would not fit is the largest that does.
pub proof fn law_margins_are_exact(units: u32, hundreds: int)
    requires
        100 * hundreds <= units < 100 * hundreds + 100,
    ensures
        units + 150 < 0x1_0000_0000 ==> message_limit(units) == units + 150,
        units + 150 >= 0x1_0000_0000 ==> message_limit(units) == 0xffff_ffff,
        units + 20 * hundreds < 0x1_0000_0000 ==> transaction_limit(units) == units + 20 * hundreds,
        units + 20 * hundreds >= 0x1_0000_0000 ==> transaction_limit(units) == 0xffff_ffff,
{
}

/// The compute budget program, once appended to the keys, cannot be named exactly where there are
/// 256 keys or more and it is not among the first 256.
pub proof fn law_when_the_program_cannot_be_named(keys: Seq<Pubkey>)
    ensures
        !program_is_nameable(keys) <==> keys.len() >= 256 && (forall|i: int|
            0 <= i < 256 ==> #[trigger] keys[i] != crate::pubkey::compute_budget_address()),
{
    if keys.len() >= 256 && program_is_nameable(keys) {
        let i = choose|i: int|
            0 <= i < 256 && i < keys.len() && #[trigger] keys[i]
                == crate::pubkey::compute_budget_address();
        assert(keys[i] == crate::pubkey::compute_budget_address());
    }
}

/// Whether an account may be written depends on its place alone: signers may be but for the last
/// few of them, and the others but for the last few of all.
pub proof fn law_which_accounts_are_only_read(message: MessageView, i: int)
    requires
        0 <= i < message.account_keys.len(),
    ensures
        i < message.header.num_required_signatures ==> (message.may_write(i) <==> i
            + message.header.num_readonly_signed_accounts
            < message.header.num_required_signatures),
        i >= message.header.num_required_signatures ==> (message.may_write(i) <==> i
            + message.header.num_readonly_unsigned_accounts < message.account_keys.len()),
{
}

} // verus!
