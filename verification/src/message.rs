//! Messages and transactions, with the fields that estimation and optimization read and write.
use vstd::prelude::*;

use crate::pubkey::Pubkey;

verus! {

/// How many of a message's leading accounts sign it, and how many accounts it only reads.
#[derive(Clone, Copy, Debug, PartialEq, Eq, Structural)]
pub struct MessageHeader {
    pub num_required_signatures: u8,
    pub num_readonly_signed_accounts: u8,
    pub num_readonly_unsigned_accounts: u8,
}

/// An account that an instruction names, and what the instruction may do with it.
#[derive(Clone, Copy, Debug, PartialEq, Eq)]
pub struct AccountMeta {
    pub pubkey: Pubkey,
    pub is_signer: bool,
    pub is_writable: bool,
}

/// A call of a program, with accounts named by their addresses.
#[derive(Debug, PartialEq, Eq)]
pub struct Instruction {
    pub program_id: Pubkey,
    pub accounts: Vec<AccountMeta>,
    pub data: Vec<u8>,
}

/// A call of a program, with accounts named by their positions in a message's key list.
#[derive(Debug, PartialEq, Eq)]
pub struct CompiledInstruction {
    pub program_id_index: u8,
    pub accounts: Vec<u8>,
    pub data: Vec<u8>,
}

/// What a transaction asks for: accounts, a recent block and the instructions to run in order.
#[derive(Debug, PartialEq, Eq)]
pub struct Message {
    pub header: MessageHeader,
    pub account_keys: Vec<Pubkey>,
    pub recent_blockhash: [u8; 32],
    pub instructions: Vec<CompiledInstruction>,
}

/// A signature over a message.
#[derive(Clone, Copy, Debug, PartialEq, Eq)]
pub struct Signature {
    pub bytes: [u8; 64],
}

/// A message with its signatures.
#[derive(Debug, PartialEq, Eq)]
pub struct Transaction {
    pub signatures: Vec<Signature>,
    pub message: Message,
}

/// The model of a `CompiledInstruction`.
#[verifier::ext_equal]
pub struct CompiledInstructionView {
    pub program_id_index: u8,
    pub accounts: Seq<u8>,
    pub data: Seq<u8>,
}

/// The model of a `Message`.
#[verifier::ext_equal]
pub struct MessageView {
    pub header: MessageHeader,
    pub account_keys: Seq<Pubkey>,
    pub recent_blockhash: [u8; 32],
    pub instructions: Seq<CompiledInstructionView>,
}

/// The model of a `Transaction`.
#[verifier::ext_equal]
pub struct TransactionView {
    pub signatures: Seq<Signature>,
    pub message: MessageView,
}

impl View for CompiledInstruction {
    type V = CompiledInstructionView;

    open spec fn view(&self) -> CompiledInstructionView {
        CompiledInstructionView {
            program_id_index: self.program_id_index,
            accounts: self.accounts@,
            data: self.data@,
        }
    }
}

impl View for Message {
    type V = MessageView;

    open spec fn view(&self) -> MessageView {
        MessageView {
            header: self.header,
            account_keys: self.account_keys@,
            recent_blockhash: self.recent_blockhash,
            instructions: self.instructions@.map_values(|ix: CompiledInstruction| ix@),
        }
    }
}

impl View for Transaction {
    type V = TransactionView;

    open spec fn view(&self) -> TransactionView {
        TransactionView { signatures: self.signatures@, message: self.message@ }
    }
}

impl Clone for CompiledInstruction {
    fn clone(&self) -> (copy: Self)
        ensures
            copy@ == self@,
            copy.program_id_index == self.program_id_index,
            copy.accounts@ == self.accounts@,
            copy.data@ == self.data@,
    {
        let copy = CompiledInstruction {
            program_id_index: self.program_id_index,
            accounts: self.accounts.clone(),
            data: self.data.clone(),
        };
        assert(copy@ =~= self@);
        copy
    }
}

impl Clone for Message {
    fn clone(&self) -> (copy: Self)
        ensures
            copy@ == self@,
            copy.header == self.header,
            copy.account_keys@ == self.account_keys@,
            copy.recent_blockhash == self.recent_blockhash,
            copy.instructions@.len() == self.instructions@.len(),
            forall|i: int|
                0 <= i < self.instructions@.len() ==> {
                    &&& (#[trigger] copy.instructions@[i]).program_id_index
                        == self.instructions@[i].program_id_index
                    &&& copy.instructions@[i].accounts@ == self.instructions@[i].accounts@
                    &&& copy.instructions@[i].data@ == self.instructions@[i].data@
                },
    {
        let mut instructions: Vec<CompiledInstruction> = Vec::new();
        let mut i: usize = 0;
        while i < self.instructions.len()
            invariant
                i <= self.instructions.len(),
                instructions.len() == i,
                forall|j: int|
                    0 <= j < i ==> {
                        &&& (#[trigger] instructions@[j])@ == self.instructions@[j]@
                        &&& instructions@[j].program_id_index
                            == self.instructions@[j].program_id_index
                        &&& instructions@[j].accounts@ == self.instructions@[j].accounts@
                        &&& instructions@[j].data@ == self.instructions@[j].data@
                    },
            decreases self.instructions.len() - i,
        {
            instructions.push(self.instructions[i].clone());
            i += 1;
        }
        let copy = Message {
            header: self.header,
            account_keys: self.account_keys.clone(),
            recent_blockhash: self.recent_blockhash,
            instructions,
        };
        assert(copy@.account_keys =~= self@.account_keys);
        assert(copy@ =~= self@);
        copy
    }
}

/// The position of the first occurrence of `key` in `keys`, or the length of `keys` where it does
/// not occur.
pub open spec fn first_position(keys: Seq<Pubkey>, key: Pubkey) -> int
    decreases keys.len(),
{
    if keys.len() == 0 || keys[0] == key {
        0
    } else {
        1 + first_position(keys.drop_first(), key)
    }
}

/// The index under which a compiled instruction names `key`: its first position in `keys`, of
/// which the eight low bits are kept.
pub open spec fn key_index(keys: Seq<Pubkey>, key: Pubkey) -> u8 {
    (first_position(keys, key) % 256) as u8
}

/// What `instruction` compiles to against `keys`.
pub open spec fn compiled(instruction: Instruction, keys: Seq<Pubkey>) -> CompiledInstructionView {
    CompiledInstructionView {
        program_id_index: key_index(keys, instruction.program_id),
        accounts: instruction.accounts@.map_values(|meta: AccountMeta| key_index(keys, meta.pubkey)),
        data: instruction.data@,
    }
}

/// `first_position` finds `key` wherever it occurs, and nothing before that is `key`.
pub proof fn lemma_first_position(keys: Seq<Pubkey>, key: Pubkey)
    ensures
        0 <= first_position(keys, key) <= keys.len(),
        first_position(keys, key) < keys.len() <==> keys.contains(key),
        keys.contains(key) ==> keys[first_position(keys, key)] == key,
        forall|i: int| 0 <= i < first_position(keys, key) ==> keys[i] != key,
    decreases keys.len(),
{
    if keys.len() != 0 && keys[0] != key {
        let rest = keys.drop_first();
        lemma_first_position(rest, key);
        if keys.contains(key) {
            let i = choose|i: int| 0 <= i < keys.len() && keys[i] == key;
            assert(rest[i - 1] == key);
        }
        assert forall|i: int| 0 <= i < first_position(keys, key) implies keys[i] != key by {
            if i > 0 {
                assert(rest[i - 1] == keys[i]);
            }
        }
    }
}

/// Appending `key` to `keys` puts its first position where it was, or at the end.
pub proof fn lemma_first_position_push(keys: Seq<Pubkey>, key: Pubkey)
    ensures
        first_position(keys.push(key), key) == first_position(keys, key),
{
    lemma_first_position(keys, key);
    lemma_first_position(keys.push(key), key);
    assert(keys.push(key)[keys.len() as int] == key);
    let before = first_position(keys, key);
    let after = first_position(keys.push(key), key);
    if before < keys.len() {
        assert(keys.push(key)[before] == key);
    }
    if after < keys.len() {
        assert(keys[after] == key);
    }
}

/// Calls `solana_sdk::message::Message::compile_instruction` on a message with the given keys.
/// The contract claims that it names the program and each account by the first position of its
/// address in the keys, truncated to a byte, and copies the data. It panics where an address does
/// not occur among the keys.
#[verifier::external_body]
pub(crate) fn compile_instruction(keys: &Vec<Pubkey>, instruction: &Instruction) -> (ix:
    CompiledInstruction)
    requires
        keys@.contains(instruction.program_id),
        forall|i: int|
            0 <= i < instruction.accounts@.len() ==> keys@.contains(
                (#[trigger] instruction.accounts@[i]).pubkey,
            ),
    ensures
        ix@ == compiled(*instruction, keys@),
{
    let address = |key: Pubkey| solana_sdk::pubkey::Pubkey::new_from_array(key.bytes);
    let message = solana_sdk::message::Message {
        account_keys: keys.iter().map(|key| address(*key)).collect(),
        ..solana_sdk::message::Message::default()
    };
    let metas = instruction.accounts.iter().map(|meta| solana_sdk::instruction::AccountMeta {
        pubkey: address(meta.pubkey), is_signer: meta.is_signer, is_writable: meta.is_writable,
    });
    let ix = message.compile_instruction(&solana_sdk::instruction::Instruction {
        program_id: address(instruction.program_id), accounts: metas.collect(), data: instruction.data.clone(),
    });
    CompiledInstruction { program_id_index: ix.program_id_index, accounts: ix.accounts, data: ix.data }
}

/// The signature whose bytes are all zero.
pub open spec fn zero_signature() -> Signature {
    Signature {
        bytes: [
            0, 0, 0, 0, 0, 0, 0, 0, 0, 0, 0, 0, 0, 0, 0, 0, 0, 0, 0, 0,
            0, 0, 0, 0, 0, 0, 0, 0, 0, 0, 0, 0, 0, 0, 0, 0, 0, 0, 0, 0,
            0, 0, 0, 0, 0, 0, 0, 0, 0, 0, 0, 0, 0, 0, 0, 0, 0, 0, 0, 0,
            0, 0, 0, 0,
        ],
    }
}

/// The signatures of a transaction that nobody has signed yet: a zero one for each required.
pub open spec fn blank_signatures(header: MessageHeader) -> Seq<Signature> {
    Seq::new(header.num_required_signatures as nat, |i: int| zero_signature())
}

impl MessageView {
    /// The transaction over this message that nobody has signed yet.
    pub open spec fn unsigned(self) -> TransactionView {
        TransactionView { signatures: blank_signatures(self.header), message: self }
    }
}

/// Calls `solana_sdk::transaction::Transaction::new_unsigned` on a message with the given header
/// and takes the signatures of the result. The contract claims that there is one for each
/// required signature and that each is zero.
#[verifier::external_body]
fn unsigned_signatures(header: MessageHeader) -> (signatures: Vec<Signature>)
    ensures
        signatures@ == blank_signatures(header),
{
    let message = solana_sdk::message::Message {
        header: solana_sdk::message::MessageHeader {
            num_required_signatures: header.num_required_signatures,
            num_readonly_signed_accounts: header.num_readonly_signed_accounts,
            num_readonly_unsigned_accounts: header.num_readonly_unsigned_accounts,
        },
        ..solana_sdk::message::Message::default()
    };
    let transaction = solana_sdk::transaction::Transaction::new_unsigned(message);
    transaction.signatures.into_iter().map(|s| Signature { bytes: s.into() }).collect()
}

impl Transaction {
    /// A transaction over `message` with a zero signature for each that it requires.
    pub fn new_unsigned(message: Message) -> (transaction: Transaction)
        ensures
            transaction@ == message@.unsigned(),
            transaction.message == message,
            transaction.signatures@.len() == message.header.num_required_signatures,
            forall|i: int, j: int|
                0 <= i < transaction.signatures@.len() && 0 <= j < 64
                    ==> #[trigger] transaction.signatures@[i].bytes@[j] == 0,
    {
        let signatures = unsigned_signatures(message.header);
        proof {
            law_blank_signatures(message.header);
        }
        Transaction { signatures, message }
    }
}

impl MessageView {
    /// Whether the message is in order: signers and accounts that are only read do not overlap,
    /// the first account pays, and every instruction names accounts of the message, its program
    /// not being the payer.
    pub open spec fn sanitized(self) -> bool {
        &&& self.header.num_required_signatures + self.header.num_readonly_unsigned_accounts
            <= self.account_keys.len()
        &&& self.header.num_readonly_signed_accounts < self.header.num_required_signatures
        &&& forall|i: int|
            0 <= i < self.instructions.len() ==> (#[trigger] self.instructions[i]).in_order(
                self.account_keys.len(),
            )
    }
}

impl CompiledInstructionView {
    /// Whether the instruction only names accounts among `count`, its program not being the first.
    pub open spec fn in_order(self, count: nat) -> bool {
        &&& 0 < self.program_id_index < count
        &&& forall|i: int| 0 <= i < self.accounts.len() ==> #[trigger] self.accounts[i] < count
    }
}

impl TransactionView {
    /// Whether the transaction is in order: it has the signatures that its message requires, no
    /// more than there are accounts, and its message is in order.
    pub open spec fn sanitized(self) -> bool {
        &&& self.message.header.num_required_signatures <= self.signatures.len()
        &&& self.signatures.len() <= self.message.account_keys.len()
        &&& self.message.sanitized()
    }

    /// The transaction on the block with the given hash.
    pub open spec fn on_block(self, blockhash: [u8; 32]) -> TransactionView {
        TransactionView { signatures: self.signatures, message: self.message.on_block(blockhash) }
    }
}

impl MessageView {
    /// The message on the block with the given hash.
    pub open spec fn on_block(self, blockhash: [u8; 32]) -> MessageView {
        MessageView {
            header: self.header,
            account_keys: self.account_keys,
            recent_blockhash: blockhash,
            instructions: self.instructions,
        }
    }

    /// Whether the message has an encoding: no list in it is longer than 65535.
    pub open spec fn encodable(self) -> bool {
        &&& self.account_keys.len() <= 0xffff
        &&& self.instructions.len() <= 0xffff
        &&& forall|i: int|
            0 <= i < self.instructions.len() ==> (#[trigger] self.instructions[i]).encodable()
    }
}

impl CompiledInstructionView {
    /// Whether the instruction has an encoding: no list in it is longer than 65535.
    pub open spec fn encodable(self) -> bool {
        self.accounts.len() <= 0xffff && self.data.len() <= 0xffff
    }
}

impl Message {
    /// Whether the message has an encoding.
    pub fn is_encodable(&self) -> (encodable: bool)
        ensures
            encodable == self@.encodable(),
            encodable <==> {
                &&& self.account_keys@.len() <= 0xffff
                &&& self.instructions@.len() <= 0xffff
                &&& forall|i: int|
                    0 <= i < self.instructions@.len() ==> (#[trigger] self.instructions@[i]).accounts@.len()
                        <= 0xffff && self.instructions@[i].data@.len() <= 0xffff
            },
    {
        if self.account_keys.len() > 0xffff || self.instructions.len() > 0xffff {
            return false;
        }
        let mut i: usize = 0;
        while i < self.instructions.len()
            invariant
                i <= self.instructions.len(),
                forall|j: int| 0 <= j < i ==> (#[trigger] self@.instructions[j]).encodable(),
                forall|j: int|
                    0 <= j < i ==> (#[trigger] self.instructions@[j]).accounts@.len() <= 0xffff
                        && self.instructions@[j].data@.len() <= 0xffff,
            decreases self.instructions.len() - i,
        {
            assert(self@.instructions[i as int] == self.instructions@[i as int]@);
            if self.instructions[i].accounts.len() > 0xffff || self.instructions[i].data.len()
                > 0xffff {
                return false;
            }
            i += 1;
        }
        true
    }
}

/// A transaction that nobody has signed yet is in order where its message is.
pub proof fn law_unsigned_transaction_keeps_order(message: MessageView)
    requires
        message.sanitized(),
    ensures
        message.unsigned().sanitized(),
{
}

/// A transaction of which it is known that it is in order.
#[verifier::external_type_specification]
#[verifier::external_body]
#[allow(deprecated)]
pub struct ExSanitizedTransaction(solana_sdk::transaction::SanitizedTransaction);

/// What `SanitizedTransaction::try_from_legacy_transaction` of `solana_sdk` makes of a transaction,
/// with no reserved accounts.
pub uninterp spec fn sanitize_outcome(transaction: TransactionView) -> Result<
    solana_sdk::transaction::SanitizedTransaction,
    solana_sdk::transaction::TransactionError,
>;

/// Calls `solana_sdk::transaction::SanitizedTransaction::try_from_legacy_transaction` with no
/// reserved accounts. The contract gives its result a name and claims that it accepts the
/// transactions that are in order and no others. It panics where it accepts a transaction whose
/// message has no encoding, since it hashes that.
#[verifier::external_body]
#[allow(deprecated)]
pub(crate) fn sanitize(transaction: &Transaction) -> (outcome: Result<
    solana_sdk::transaction::SanitizedTransaction,
    solana_sdk::transaction::TransactionError,
>)
    requires
        transaction@.sanitized() ==> transaction@.message.encodable(),
    ensures
        outcome == sanitize_outcome(transaction@),
        outcome is Ok <==> transaction@.sanitized(),
{
    let (m, h) = (&transaction.message, &transaction.message.header);
    let message = solana_sdk::message::Message::new_with_compiled_instructions(
        h.num_required_signatures, h.num_readonly_signed_accounts, h.num_readonly_unsigned_accounts,
        m.account_keys.iter().map(|key| solana_sdk::pubkey::Pubkey::new_from_array(key.bytes)).collect(),
        m.recent_blockhash.into(),
        m.instructions.iter().map(|ix| solana_sdk::instruction::CompiledInstruction::new_from_raw_parts(
            ix.program_id_index, ix.data.clone(), ix.accounts.clone(),
        )).collect(),
    );
    let signatures = transaction.signatures.iter().map(|s| s.bytes.into()).collect();
    let plain = solana_sdk::transaction::Transaction { signatures, message };
    solana_sdk::transaction::SanitizedTransaction::try_from_legacy_transaction(plain, &std::collections::HashSet::new())
}

/// The model of an instruction has the index, the accounts and the data of the instruction.
pub proof fn law_instruction_model_keeps_every_field(ix: CompiledInstruction)
    ensures
        ix@.program_id_index == ix.program_id_index,
        ix@.accounts == ix.accounts@,
        ix@.data == ix.data@,
{
}

/// The model of a message has the header, the keys, the recent block and, one for one, the
/// instructions of the message.
pub proof fn law_message_model_keeps_every_field(message: Message)
    ensures
        message@.header.num_required_signatures == message.header.num_required_signatures,
        message@.header.num_readonly_signed_accounts == message.header.num_readonly_signed_accounts,
        message@.header.num_readonly_unsigned_accounts
            == message.header.num_readonly_unsigned_accounts,
        message@.account_keys == message.account_keys@,
        message@.recent_blockhash == message.recent_blockhash,
        message@.instructions.len() == message.instructions@.len(),
        forall|i: int|
            0 <= i < message.instructions@.len() ==> {
                &&& (#[trigger] message@.instructions[i]).program_id_index
                    == message.instructions@[i].program_id_index
                &&& message@.instructions[i].accounts == message.instructions@[i].accounts@
                &&& message@.instructions[i].data == message.instructions@[i].data@
            },
{
}

/// The model of a transaction has the signatures of the transaction and the model of its message.
pub proof fn law_transaction_model_keeps_every_field(transaction: Transaction)
    ensures
        transaction@.signatures == transaction.signatures@,
        transaction@.message == transaction.message@,
{
}

/// A transaction that nobody has signed yet has as many signatures as its message requires, and no
/// byte of them is other than zero.
pub proof fn law_blank_signatures(header: MessageHeader)
    ensures
        blank_signatures(header).len() == header.num_required_signatures,
        forall|i: int, j: int|
            0 <= i < header.num_required_signatures && 0 <= j < 64
                ==> #[trigger] blank_signatures(header)[i].bytes@[j] == 0,
{
    assert forall|i: int, j: int|
        0 <= i < header.num_required_signatures && 0 <= j
            < 64 implies #[trigger] blank_signatures(header)[i].bytes@[j] == 0 by {
        assert(blank_signatures(header)[i] == zero_signature());
        lemma_zero_signature(j);
    }
}

/// The bytes of the zero signature.
proof fn lemma_zero_signature(j: int)
    requires
        0 <= j < 64,
    ensures
        zero_signature().bytes@[j] == 0,
{
}

/// The transaction over a message that nobody has signed yet holds that message, with a signature
/// for each account that has to sign and none for any other, each of them zero.
pub proof fn law_unsigned_transaction_has_the_required_signatures(message: MessageView)
    ensures
        message.unsigned().message == message,
        message.unsigned().signatures.len() == message.header.num_required_signatures,
        forall|i: int, j: int|
            0 <= i < message.header.num_required_signatures && 0 <= j < 64
                ==> #[trigger] message.unsigned().signatures[i].bytes@[j] == 0,
{
    law_blank_signatures(message.header);
}

/// A compiled instruction names a key by the place where it occurs first, or by what is left of
/// that in a byte.
pub proof fn law_key_is_named_by_its_first_place(keys: Seq<Pubkey>, key: Pubkey, place: int)
    requires
        0 <= place < keys.len(),
        keys[place] == key,
        forall|i: int| 0 <= i < place ==> keys[i] != key,
    ensures
        key_index(keys, key) as int == place % 256,
        place < 256 ==> keys[key_index(keys, key) as int] == key,
{
    lemma_first_position(keys, key);
    let found = first_position(keys, key);
    if found < place {
        assert(keys[found] == key);
    }
}

/// Compiling an instruction keeps its data and names its program and each of its accounts, in
/// order, as keys are named.
pub proof fn law_compiling_keeps_data_and_order(instruction: Instruction, keys: Seq<Pubkey>)
    ensures
        compiled(instruction, keys).data == instruction.data@,
        compiled(instruction, keys).program_id_index == key_index(keys, instruction.program_id),
        compiled(instruction, keys).accounts.len() == instruction.accounts@.len(),
        forall|i: int|
            0 <= i < instruction.accounts@.len()
                ==> #[trigger] compiled(instruction, keys).accounts[i] == key_index(
                keys,
                instruction.accounts@[i].pubkey,
            ),
{
}

/// Moving a message or a transaction to another block changes its recent block and nothing else.
pub proof fn law_moving_to_a_block_keeps_the_rest(transaction: TransactionView, blockhash: [u8; 32])
    ensures
        transaction.message.on_block(blockhash).recent_blockhash == blockhash,
        transaction.message.on_block(blockhash).header == transaction.message.header,
        transaction.message.on_block(blockhash).account_keys == transaction.message.account_keys,
        transaction.message.on_block(blockhash).instructions == transaction.message.instructions,
        transaction.on_block(blockhash).signatures == transaction.signatures,
        transaction.on_block(blockhash).message == transaction.message.on_block(blockhash),
{
}

/// A message is out of order where signers and accounts that are only read overlap, where no
/// signer can be written, or where an instruction calls the payer or names what is not among the
/// keys; and it is in order where none of this holds.
pub proof fn law_what_is_out_of_order(message: MessageView)
    ensures
        !message.sanitized() <==> {
            ||| message.header.num_required_signatures
                + message.header.num_readonly_unsigned_accounts > message.account_keys.len()
            ||| message.header.num_readonly_signed_accounts
                >= message.header.num_required_signatures
            ||| exists|i: int|
                0 <= i < message.instructions.len() && ((
                #[trigger] message.instructions[i]).program_id_index == 0
                    || message.instructions[i].program_id_index >= message.account_keys.len()
                    || exists|j: int|
                    0 <= j < message.instructions[i].accounts.len()
                        && #[trigger] message.instructions[i].accounts[j]
                        >= message.account_keys.len())
        },
{
    if !message.sanitized() && message.header.num_required_signatures
        + message.header.num_readonly_unsigned_accounts <= message.account_keys.len()
        && message.header.num_readonly_signed_accounts < message.header.num_required_signatures {
        let i = choose|i: int|
            0 <= i < message.instructions.len() && !(#[trigger] message.instructions[i]).in_order(
                message.account_keys.len(),
            );
        assert(!message.instructions[i].in_order(message.account_keys.len()));
    }
    if message.sanitized() {
        assert forall|i: int| 0 <= i < message.instructions.len() implies (
        #[trigger] message.instructions[i]).in_order(message.account_keys.len()) by {}
    }
}

/// A transaction is in order where its message is and it has at least the signatures that the
/// message requires and at most one for each key.
pub proof fn law_when_a_transaction_is_in_order(transaction: TransactionView)
    ensures
        transaction.sanitized() <==> transaction.message.sanitized()
            && transaction.message.header.num_required_signatures <= transaction.signatures.len()
            <= transaction.message.account_keys.len(),
{
}

/// A message has no encoding exactly where one of its lists, or a list of one of its instructions,
/// has more than 65535 elements.
pub proof fn law_what_has_no_encoding(message: MessageView)
    ensures
        !message.encodable() <==> {
            ||| message.account_keys.len() > 0xffff
            ||| message.instructions.len() > 0xffff
            ||| exists|i: int|
                0 <= i < message.instructions.len() && ((
                #[trigger] message.instructions[i]).accounts.len() > 0xffff
                    || message.instructions[i].data.len() > 0xffff)
        },
{
    if !message.encodable() && message.account_keys.len() <= 0xffff && message.instructions.len()
        <= 0xffff {
        let i = choose|i: int|
            0 <= i < message.instructions.len() && !(#[trigger] message.instructions[i]).encodable();
        assert(!message.instructions[i].encodable());
    }
    if message.encodable() {
        assert forall|i: int| 0 <= i < message.instructions.len() implies (
        #[trigger] message.instructions[i]).encodable() by {}
    }
}

} // verus!
