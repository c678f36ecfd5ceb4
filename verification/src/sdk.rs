//! The boundary to the chain's SDK. Every function here makes one call into
//! it; its contract is taken on trust from the SDK's source.

use vstd::prelude::*;
use vstd::bytes::{spec_u32_to_le_bytes, spec_u64_to_le_bytes};
use std::str::FromStr;
use solana_sdk::compute_budget::ComputeBudgetInstruction;
use solana_sdk::pubkey::Pubkey;
use solana_sdk::system_instruction;
use solana_sdk::address_lookup_table::state::AddressLookupTable;
use solana_sdk::address_lookup_table::AddressLookupTableAccount;
use solana_sdk::instruction::AccountMeta as SdkAccountMeta;
use solana_sdk::instruction::Instruction as SdkInstruction;
use solana_sdk::message::{v0, VersionedMessage};
use solana_sdk::signature::Keypair;
use solana_sdk::signer::Signer;
use solana_sdk::transaction::VersionedTransaction;
use crate::instruction::{bytes_view, instruction_views, AccountMeta, Instruction, InstructionView};
use crate::lookup::{addresses_view, table_views, LookupTable, LookupTableView};

verus! {

/// The address that `Pubkey::from_str` reads from a text, if it reads one.
pub uninterp spec fn pubkey_from_str(text: Seq<char>) -> Option<[u8; 32]>;

/// The bytes that `bs58::decode` reads from a text, if it is well formed.
pub uninterp spec fn bs58_decoded(text: Seq<char>) -> Option<Seq<u8>>;

/// Whether a text is an address: at most 44 characters of base58 that
/// stand for exactly 32 bytes.
pub open spec fn is_address_text(text: Seq<char>) -> bool {
    &&& text.len() <= 44
    &&& bs58_decoded(text) is Some
    &&& bs58_decoded(text)->Some_0.len() == 32
}

/// Address of the compute-budget program.
pub open spec fn compute_budget_program_id() -> Seq<u8> {
    seq![
        3u8, 6, 70, 111, 229, 33, 23, 50, 255, 236, 173, 186, 114, 195, 155, 231,
        188, 140, 229, 187, 197, 247, 18, 107, 44, 67, 155, 58, 64, 0, 0, 0,
    ]
}

/// Address of the system program: thirty-two zero bytes.
pub open spec fn system_program_id() -> Seq<u8> {
    Seq::new(32, |i: int| 0u8)
}

/// Whether an instruction is the compute-budget directive that sets the
/// limit to `units`: no accounts, and as payload the tag 2 followed by the
/// limit in little-endian order.
pub open spec fn is_budget_instruction(instruction: InstructionView, units: u32) -> bool {
    &&& instruction.program_id@ == compute_budget_program_id()
    &&& instruction.accounts == Seq::<AccountMeta>::empty()
    &&& instruction.data == seq![2u8] + spec_u32_to_le_bytes(units)
}

/// Whether an instruction is the system program's transfer of `lamports`
/// from `from`, which signs, to `to`: both accounts writable, and as payload
/// the tag 2 in four bytes followed by the amount, both little-endian.
pub open spec fn is_transfer_instruction(
    instruction: InstructionView,
    from: [u8; 32],
    to: [u8; 32],
    lamports: u64,
) -> bool {
    &&& instruction.program_id@ == system_program_id()
    &&& instruction.accounts == seq![
        AccountMeta { pubkey: from, is_signer: true, is_writable: true },
        AccountMeta { pubkey: to, is_signer: false, is_writable: true },
    ]
    &&& instruction.data == seq![2u8, 0u8, 0u8, 0u8] + spec_u64_to_le_bytes(lamports)
}

/// Calls `Pubkey::from_str`: base58 text of at most 44 characters that
/// decodes to exactly 32 bytes gives the address made of those bytes,
/// anything else gives none.
#[verifier::external_body]
pub(crate) fn parse_address(text: &str) -> (address: Option<[u8; 32]>)
    ensures
        address == pubkey_from_str(text@),
        address is Some <==> is_address_text(text@),
        address is Some ==> bs58_decoded(text@) == Some(address->Some_0@),
{
    Pubkey::from_str(text).ok().map(|key| key.to_bytes())
}

/// Calls `bs58::decode(..).into_vec()`: the bytes that the text encodes in
/// the Bitcoin alphabet, or none where a character is outside it. The result
/// depends on the text alone.
#[verifier::external_body]
pub(crate) fn decode_base58(text: &str) -> (bytes: Option<Vec<u8>>)
    ensures
        bytes_view(bytes) == bs58_decoded(text@),
{
    solana_sdk::bs58::decode(text).into_vec().ok()
}

/// Calls `ComputeBudgetInstruction::set_compute_unit_limit`, which builds
/// the directive for the compute-budget program with the borsh encoding of
/// its third variant as payload.
#[verifier::external_body]
pub(crate) fn compute_unit_limit_instruction(units: u32) -> (instruction: Instruction)
    ensures
        is_budget_instruction(instruction@, units),
{
    let ix = ComputeBudgetInstruction::set_compute_unit_limit(units);
    Instruction {
        program_id: ix.program_id.to_bytes(),
        accounts: ix.accounts.iter().map(|a| AccountMeta {
            pubkey: a.pubkey.to_bytes(),
            is_signer: a.is_signer,
            is_writable: a.is_writable,
        }).collect(),
        data: ix.data,
    }
}

/// Calls `system_instruction::transfer`, which builds the system program's
/// transfer with the bincode encoding of its third variant as payload.
#[verifier::external_body]
pub(crate) fn transfer_instruction(from: &[u8; 32], to: &[u8; 32], lamports: u64) -> (instruction:
    Instruction)
    ensures
        is_transfer_instruction(instruction@, *from, *to, lamports),
{
    let ix = system_instruction::transfer(&Pubkey::from(*from), &Pubkey::from(*to), lamports);
    Instruction {
        program_id: ix.program_id.to_bytes(),
        accounts: ix.accounts.iter().map(|a| AccountMeta {
            pubkey: a.pubkey.to_bytes(),
            is_signer: a.is_signer,
            is_writable: a.is_writable,
        }).collect(),
        data: ix.data,
    }
}

/// The text that `bs58::encode` writes for some bytes.
pub uninterp spec fn bs58_encoded(bytes: Seq<u8>) -> Seq<char>;

/// The addresses that `AddressLookupTable::deserialize` reads from a table
/// account's data, if the data is a table.
pub uninterp spec fn lookup_table_addresses(data: Seq<u8>) -> Option<Seq<[u8; 32]>>;

/// The address of the keypair that `Keypair::from_bytes` reads from some
/// bytes, if it reads one.
pub uninterp spec fn keypair_pubkey(key: Seq<u8>) -> Option<[u8; 32]>;

/// The bytes of the version-0 message that `Message::try_compile` compiles,
/// if it compiles one.
pub uninterp spec fn compiled_message(
    payer: [u8; 32],
    instructions: Seq<InstructionView>,
    tables: Seq<LookupTableView>,
    blockhash: [u8; 32],
) -> Option<Seq<u8>>;

/// The bytes of the transaction that `VersionedTransaction::try_new` signs
/// over a message with one keypair, if it signs one.
pub uninterp spec fn signed_transaction(key: Seq<u8>, message: Seq<u8>) -> Option<Seq<u8>>;

/// Calls `bs58::encode(..).into_string()`: the bytes in the Bitcoin
/// alphabet. The result depends on the bytes alone.
#[verifier::external_body]
pub(crate) fn encode_base58(bytes: &[u8]) -> (text: String)
    ensures
        text@ == bs58_encoded(bytes@),
{
    solana_sdk::bs58::encode(bytes).into_string()
}

/// Calls `AddressLookupTable::deserialize`: the addresses stored behind the
/// table's header, or none where the data is no initialised table. The
/// result depends on the data alone.
#[verifier::external_body]
pub(crate) fn decode_lookup_table(data: &Vec<u8>) -> (addresses: Option<Vec<[u8; 32]>>)
    ensures
        addresses_view(addresses) == lookup_table_addresses(data@),
{
    let table = AddressLookupTable::deserialize(data).ok()?;
    Some(table.addresses.iter().map(|address| address.to_bytes()).collect())
}

/// Calls `Keypair::from_bytes`, which takes a secret key followed by the
/// public key that belongs to it, 64 bytes in all: the address of an
/// accepted keypair is its second half.
#[verifier::external_body]
pub(crate) fn keypair_address(key: &Vec<u8>) -> (address: Option<[u8; 32]>)
    ensures
        address == keypair_pubkey(key@),
        address is Some ==> key@.len() == 64 && address->Some_0@ == key@.subrange(32, 64),
{
    Keypair::from_bytes(key).ok().map(|keypair| keypair.pubkey().to_bytes())
}

/// Calls `v0::Message::try_compile` and returns the compiled message in its
/// wire format, or none where the instructions do not fit a message or the
/// message has no wire format. The result depends on the four arguments
/// alone.
#[verifier::external_body]
pub(crate) fn compile_message(
    payer: [u8; 32],
    instructions: &Vec<Instruction>,
    tables: &Vec<LookupTable>,
    blockhash: [u8; 32],
) -> (message: Option<Vec<u8>>)
    ensures
        bytes_view(message) == compiled_message(
            payer,
            instruction_views(instructions@),
            table_views(tables@),
            blockhash,
        ),
{
    let ixs = Vec::from_iter(instructions.iter().map(|ix| SdkInstruction {
        program_id: ix.program_id.into(),
        accounts: ix.accounts.iter().map(|a| SdkAccountMeta {
            pubkey: a.pubkey.into(), is_signer: a.is_signer, is_writable: a.is_writable,
        }).collect(),
        data: ix.data.clone(),
    }));
    let luts = Vec::from_iter(tables.iter().map(|t| AddressLookupTableAccount {
        key: t.key.into(),
        addresses: t.addresses.iter().copied().map(Pubkey::from).collect(),
    }));
    let message = v0::Message::try_compile(&payer.into(), &ixs, &luts, blockhash.into()).ok()?;
    bincode::serialize(&VersionedMessage::V0(message)).ok()
}

/// Whether the wire format of a transaction starts as one with exactly
/// one signature does: the count 1, then the 64 bytes of the signature, then
/// a message.
pub open spec fn is_singly_signed(transaction: Seq<u8>) -> bool {
    transaction.len() > 65 && transaction[0] == 1
}

/// Calls `VersionedTransaction::try_new` on a message in its wire format
/// with the one keypair that the bytes hold, and returns the signed
/// transaction in its wire format; none where the keypair is unusable or is
/// not the message's only signer. Signing is deterministic, so the result
/// depends on the two arguments alone. A transaction that comes back
/// carries exactly one signature.
#[verifier::external_body]
pub(crate) fn sign_transaction(key: &Vec<u8>, message: &Vec<u8>) -> (transaction: Option<Vec<u8>>)
    ensures
        bytes_view(transaction) == signed_transaction(key@, message@),
        transaction is Some ==> is_singly_signed(transaction->Some_0@),
{
    let keypair = Keypair::from_bytes(key).ok()?;
    let message: VersionedMessage = bincode::deserialize(message).ok()?;
    let transaction = VersionedTransaction::try_new(message, &[&keypair]).ok()?;
    bincode::serialize(&transaction).ok()
}

} // verus!
