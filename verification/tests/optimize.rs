use solana_client_ext::error::{OptimizeError, SolanaClientExtError};
use solana_client_ext::estimate::{
    estimate_compute_units_msg, estimate_compute_units_unsigned_tx, rollup_channel,
    simulation_request,
};
use solana_client_ext::message::{
    CompiledInstruction, Message, MessageHeader, Signature, Transaction,
};
use solana_client_ext::optimize::{
    optimize_compute_units_msg, optimize_compute_units_unsigned_tx,
};
use solana_client_ext::pubkey::Pubkey;
use solana_client_ext::rollup::ProcessedTransaction;
use solana_sdk::sanitize::Sanitize;
use solana_sdk::signer::Signer;

const COMPUTE_BUDGET: Pubkey = Pubkey {
    bytes: [
        3, 6, 70, 111, 229, 33, 23, 50, 255, 236, 173, 186, 114, 195, 155, 231, 188, 140, 229, 187,
        197, 247, 18, 107, 44, 67, 155, 58, 64, 0, 0, 0,
    ],
};

fn key(n: u8) -> Pubkey {
    Pubkey { bytes: [n; 32] }
}

fn message(keys: Vec<Pubkey>) -> Message {
    Message {
        header: MessageHeader {
            num_required_signatures: 1,
            num_readonly_signed_accounts: 0,
            num_readonly_unsigned_accounts: 1,
        },
        account_keys: keys,
        recent_blockhash: [9; 32],
        instructions: vec![CompiledInstruction {
            program_id_index: 2,
            accounts: vec![0, 1],
            data: vec![7, 8],
        }],
    }
}

fn from_sdk(message: &solana_sdk::message::Message) -> Message {
    Message {
        header: MessageHeader {
            num_required_signatures: message.header.num_required_signatures,
            num_readonly_signed_accounts: message.header.num_readonly_signed_accounts,
            num_readonly_unsigned_accounts: message.header.num_readonly_unsigned_accounts,
        },
        account_keys: message
            .account_keys
            .iter()
            .map(|key| Pubkey { bytes: key.to_bytes() })
            .collect(),
        recent_blockhash: message.recent_blockhash.to_bytes(),
        instructions: message
            .instructions
            .iter()
            .map(|ix| CompiledInstruction {
                program_id_index: ix.program_id_index,
                accounts: ix.accounts.clone(),
                data: ix.data.clone(),
            })
            .collect(),
    }
}

fn to_sdk(message: &Message) -> solana_sdk::message::Message {
    solana_sdk::message::Message {
        header: solana_sdk::message::MessageHeader {
            num_required_signatures: message.header.num_required_signatures,
            num_readonly_signed_accounts: message.header.num_readonly_signed_accounts,
            num_readonly_unsigned_accounts: message.header.num_readonly_unsigned_accounts,
        },
        account_keys: message
            .account_keys
            .iter()
            .map(|key| solana_sdk::pubkey::Pubkey::new_from_array(key.bytes))
            .collect(),
        recent_blockhash: solana_sdk::hash::Hash::new_from_array(message.recent_blockhash),
        instructions: message
            .instructions
            .iter()
            .map(|ix| solana_sdk::instruction::CompiledInstruction {
                program_id_index: ix.program_id_index,
                accounts: ix.accounts.clone(),
                data: ix.data.clone(),
            })
            .collect(),
    }
}

/// A transfer, estimated by a run and optimized: what reaches the ledger is in order and signed.
#[test]
fn cu() {
    let new_keypair = solana_sdk::signature::Keypair::new();
    let transfer_ix = solana_sdk::system_instruction::transfer(
        &new_keypair.pubkey(),
        &solana_sdk::pubkey::Pubkey::new_unique(),
        10000,
    );
    let msg = solana_sdk::message::Message::new(&[transfer_ix], Some(&new_keypair.pubkey()));
    let blockhash = solana_sdk::hash::Hash::new_from_array([5; 32]);
    let tx = solana_sdk::transaction::Transaction::new(&[&new_keypair], msg.clone(), blockhash);
    let msg = tx.message.clone();
    let signatures: Vec<Signature> =
        tx.signatures.iter().map(|s| Signature { bytes: (*s).into() }).collect();
    let mut tx = Transaction { signatures: signatures.clone(), message: from_sdk(&msg) };
    let channel = rollup_channel(&tx, "https://api.devnet.solana.com");
    assert_eq!(channel.keys.len(), 3);
    let estimate = estimate_compute_units_unsigned_tx(
        &channel,
        &vec![Ok(ProcessedTransaction::Executed { executed_units: 150 })],
    );
    let optimized_cu = optimize_compute_units_unsigned_tx(&mut tx, estimate).unwrap();
    assert_eq!(optimized_cu, 150);
    assert_eq!(tx.signatures, signatures);
    let optimized = to_sdk(&tx.message);
    assert_eq!(optimized.recent_blockhash, blockhash);
    assert!(optimized.sanitize().is_ok());
    assert_eq!(optimized.instructions.len(), 2);
    assert_eq!(optimized.instructions[1], msg.instructions[0]);
    assert_eq!(optimized.instructions[0].data, vec![2, 170, 0, 0, 0]);
    assert_eq!(optimized.program_id(0), Some(&solana_sdk::compute_budget::id()));
    assert_eq!(optimized.program_id(1), msg.program_id(0));
    let signed = solana_sdk::transaction::Transaction::new(&[&new_keypair], optimized, blockhash);
    assert!(signed.verify().is_ok());
    println!("{:?}", signed);
}

#[test]
fn message_gets_a_margin_of_150() {
    let mut m = message(vec![key(1), key(2), key(3)]);
    let optimized = optimize_compute_units_msg::<()>(&mut m, Ok(300));
    assert_eq!(optimized.unwrap(), 300);
    assert_eq!(m.account_keys, vec![key(1), key(2), key(3), COMPUTE_BUDGET]);
    assert_eq!(
        m.instructions,
        vec![
            CompiledInstruction {
                program_id_index: 3,
                accounts: vec![],
                data: vec![2, 194, 1, 0, 0],
            },
            CompiledInstruction {
                program_id_index: 2,
                accounts: vec![0, 1],
                data: vec![7, 8],
            },
        ]
    );
    assert_eq!(m.recent_blockhash, [9; 32]);
    assert_eq!(m.header, message(vec![]).header);
    assert!(to_sdk(&m).sanitize().is_ok());
}

#[test]
fn transaction_gets_twenty_for_each_full_hundred() {
    for (estimate, limit) in [
        (0u64, 0u32),
        (99, 99),
        (100, 120),
        (199, 219),
        (1050, 1250),
        (1_400_000, 1_680_000),
    ] {
        let mut tx = Transaction {
            signatures: vec![Signature { bytes: [4; 64] }],
            message: message(vec![key(1), key(2), key(3)]),
        };
        let optimized = optimize_compute_units_unsigned_tx::<()>(&mut tx, Ok(estimate));
        assert_eq!(optimized.unwrap() as u64, estimate);
        assert_eq!(tx.message.instructions[0].data[0], 2);
        assert_eq!(tx.message.instructions[0].data[1..], limit.to_le_bytes());
        assert_eq!(tx.signatures, vec![Signature { bytes: [4; 64] }]);
    }
}

#[test]
fn limits_saturate() {
    let mut m = message(vec![key(1)]);
    let optimized = optimize_compute_units_msg::<()>(&mut m, Ok(u32::MAX as u64 - 100));
    assert_eq!(optimized.unwrap(), u32::MAX - 100);
    assert_eq!(m.instructions[0].data, vec![2, 255, 255, 255, 255]);
    let mut tx = Transaction::new_unsigned(message(vec![key(1)]));
    let optimized = optimize_compute_units_unsigned_tx::<()>(&mut tx, Ok(u32::MAX as u64));
    assert_eq!(optimized.unwrap(), u32::MAX);
    assert_eq!(tx.message.instructions[0].data, vec![2, 255, 255, 255, 255]);
}

#[test]
fn failed_estimate_changes_nothing() {
    let mut m = message(vec![key(1)]);
    let optimized = optimize_compute_units_msg(&mut m, Err("offline"));
    assert!(matches!(optimized, Err(OptimizeError::Estimate("offline"))));
    assert_eq!(m, message(vec![key(1)]));
    let mut tx = Transaction::new_unsigned(message(vec![key(1)]));
    let optimized = optimize_compute_units_unsigned_tx(&mut tx, Err("offline"));
    assert!(matches!(optimized, Err(OptimizeError::Estimate("offline"))));
    assert_eq!(tx.message, message(vec![key(1)]));
}

#[test]
fn estimate_out_of_range_changes_nothing() {
    let mut m = message(vec![key(1)]);
    let optimized = optimize_compute_units_msg::<()>(&mut m, Ok(u32::MAX as u64 + 1));
    assert!(matches!(optimized, Err(OptimizeError::UnitsOutOfRange(_))));
    assert_eq!(m, message(vec![key(1)]));
    let mut tx = Transaction::new_unsigned(message(vec![key(1)]));
    let optimized = optimize_compute_units_unsigned_tx::<()>(&mut tx, Ok(u64::MAX));
    assert!(matches!(optimized, Err(OptimizeError::UnitsOutOfRange(_))));
    assert_eq!(tx.message, message(vec![key(1)]));
}

#[test]
fn known_compute_budget_key_is_named_where_it_is() {
    let mut m = message(vec![key(1), COMPUTE_BUDGET, key(2)]);
    optimize_compute_units_msg::<()>(&mut m, Ok(1)).unwrap();
    assert_eq!(m.account_keys.len(), 4);
    assert_eq!(m.account_keys[3], COMPUTE_BUDGET);
    assert_eq!(m.instructions[0].program_id_index, 1);
}

#[test]
fn position_past_a_byte_is_truncated() {
    let mut m = message(vec![key(1); 255]);
    optimize_compute_units_msg::<()>(&mut m, Ok(1)).unwrap();
    assert_eq!(m.instructions[0].program_id_index, 255);
    let mut m = message(vec![key(1); 258]);
    optimize_compute_units_msg::<()>(&mut m, Ok(1)).unwrap();
    assert_eq!(m.instructions[0].program_id_index, 2);
}

#[test]
fn optimizing_can_be_undone() {
    let mut m = message(vec![key(1), key(2), key(3)]);
    optimize_compute_units_msg::<()>(&mut m, Ok(77)).unwrap();
    m.account_keys.pop();
    m.instructions.remove(0);
    assert_eq!(m, message(vec![key(1), key(2), key(3)]));
}

#[test]
fn request_reads_back_as_the_limit() {
    let mut m = message(vec![key(1), key(2), key(3)]);
    optimize_compute_units_msg::<()>(&mut m, Ok(1_234_567)).unwrap();
    let request = solana_sdk::borsh1::try_from_slice_unchecked::<
        solana_sdk::compute_budget::ComputeBudgetInstruction,
    >(&m.instructions[0].data);
    assert_eq!(
        request.unwrap(),
        solana_sdk::compute_budget::ComputeBudgetInstruction::SetComputeUnitLimit(1_234_717)
    );
}

#[test]
fn first_read_only_account_is_freed() {
    let mut before = message(vec![key(1), key(2), key(3), key(4)]);
    before.header.num_readonly_unsigned_accounts = 2;
    before.instructions[0].program_id_index = 3;
    let mut after = before.clone();
    optimize_compute_units_msg::<()>(&mut after, Ok(1)).unwrap();
    let writable = |m: &Message, i: usize| to_sdk(m).is_maybe_writable(i, None);
    assert_eq!((0..4).map(|i| writable(&before, i)).collect::<Vec<_>>(), [true, true, false, false]);
    assert_eq!((0..4).map(|i| writable(&after, i)).collect::<Vec<_>>(), [true, true, true, false]);
}

#[test]
fn simulation_checks_blank_signatures() {
    let mut m = message(vec![key(1), key(2), key(3)]);
    m.header.num_required_signatures = 2;
    let request = simulation_request(&m);
    assert!(request.sig_verify);
    assert_eq!(request.transaction.signatures, vec![Signature { bytes: [0; 64] }; 2]);
    assert_eq!(request.transaction.message, m);
}

#[test]
fn simulation_estimates() {
    assert_eq!(estimate_compute_units_msg(Some(450)), Ok(450));
    assert_eq!(estimate_compute_units_msg(Some(u64::MAX)), Ok(u64::MAX));
    assert_eq!(
        estimate_compute_units_msg(None),
        Err(SolanaClientExtError::ComputeUnitsError(
            "Missing Compute Units from transaction simulation.".to_string()
        ))
    );
    assert_eq!(
        estimate_compute_units_msg(Some(0)),
        Err(SolanaClientExtError::RpcError("Transaction simulation failed.".to_string()))
    );
}

#[test]
fn recent_block_does_not_matter() {
    let first = message(vec![key(1), key(2), key(3)]);
    let mut second = first.clone();
    second.recent_blockhash = [1; 32];
    let latest = [6; 32];
    let sent = |m: &Message| {
        let mut transaction = simulation_request(m).transaction;
        transaction.message.recent_blockhash = latest;
        transaction
    };
    assert!(simulation_request(&first) != simulation_request(&second));
    assert_eq!(sent(&first), sent(&second));
}

#[test]
fn long_lists_have_no_encoding() {
    assert!(message(vec![key(1); 65535]).is_encodable());
    assert!(!message(vec![key(1); 65536]).is_encodable());
    let mut m = message(vec![key(1)]);
    m.instructions[0].data = vec![0; 65535];
    m.instructions[0].accounts = vec![0; 65535];
    assert!(m.is_encodable());
    m.instructions[0].data.push(0);
    assert!(!m.is_encodable());
    m.instructions[0].data.pop();
    m.instructions[0].accounts.push(0);
    assert!(!m.is_encodable());
    let instruction = message(vec![]).instructions.remove(0);
    let mut m = message(vec![key(1)]);
    m.instructions = vec![instruction; 65536];
    assert!(!m.is_encodable());
}
