//! The transaction builder and signer: compiles the ordered instructions
//! against the resolved lookup tables and signs the message with the one
//! controlling key.

use vstd::prelude::*;
use crate::instruction::{bytes_view, instruction_views, Instruction, InstructionView};
use crate::lookup::{table_views, LookupTable, LookupTableView};
use crate::sdk::{
    bs58_encoded, compile_message, compiled_message, encode_base58, is_singly_signed,
    keypair_address, keypair_pubkey, sign_transaction, signed_transaction,
};
use crate::types::BotError;

verus! {

/// The most bytes that a transaction may take on the wire.
pub const MAX_TRANSACTION_SIZE: usize = 1232;

/// The view of a build's outcome.
pub open spec fn build_view(outcome: Result<Vec<u8>, BotError>) -> Result<Seq<u8>, BotError> {
    match outcome {
        Ok(bytes) => Ok(bytes@),
        Err(error) => Err(error),
    }
}

/// What a build ends with, given how far its three steps came: a key that
/// yields no payer is `SigningError`, instructions that compile to no
/// message are `CompilationError`, a message that could not be signed is
/// `SigningError`, a signed transaction over the size limit is
/// `CompilationError`, and otherwise the signed bytes are the result.
pub open spec fn spec_build_outcome(
    payer: Option<[u8; 32]>,
    message: Option<Seq<u8>>,
    signed: Option<Seq<u8>>,
) -> Result<Seq<u8>, BotError> {
    if payer is None {
        Err(BotError::SigningError)
    } else if message is None {
        Err(BotError::CompilationError)
    } else if signed is None {
        Err(BotError::SigningError)
    } else if signed->Some_0.len() > MAX_TRANSACTION_SIZE {
        Err(BotError::CompilationError)
    } else {
        Ok(signed->Some_0)
    }
}

/// What building a transaction yields.
pub open spec fn spec_build(
    instructions: Seq<InstructionView>,
    tables: Seq<LookupTableView>,
    blockhash: [u8; 32],
    key: Seq<u8>,
) -> Result<Seq<u8>, BotError> {
    match keypair_pubkey(key) {
        None => Err(BotError::SigningError),
        Some(payer) => match compiled_message(payer, instructions, tables, blockhash) {
            None => Err(BotError::CompilationError),
            Some(message) => match signed_transaction(key, message) {
                None => Err(BotError::SigningError),
                Some(transaction) => if transaction.len() > MAX_TRANSACTION_SIZE {
                    Err(BotError::CompilationError)
                } else {
                    Ok(transaction)
                },
            },
        },
    }
}

/// Classifies the outcome of a build from the results of its three steps.
pub fn build_outcome(
    payer: Option<[u8; 32]>,
    message: Option<Vec<u8>>,
    signed: Option<Vec<u8>>,
) -> (outcome: Result<Vec<u8>, BotError>)
    ensures
        build_view(outcome) == spec_build_outcome(payer, bytes_view(message), bytes_view(signed)),
{
    if payer.is_none() {
        return Err(BotError::SigningError);
    }
    if message.is_none() {
        return Err(BotError::CompilationError);
    }
    match signed {
        Some(transaction) => if transaction.len() > MAX_TRANSACTION_SIZE {
            Err(BotError::CompilationError)
        } else {
            Ok(transaction)
        },
        None => Err(BotError::SigningError),
    }
}

/// The address that pays for and signs every transaction: the public half
/// of the key, or `SigningError` where the key is unusable.
pub fn payer_address(key: &Vec<u8>) -> (outcome: Result<[u8; 32], BotError>)
    ensures
        match outcome {
            Ok(address) => keypair_pubkey(key@) == Some(address) && key@.len() == 64 && address@
                == key@.subrange(32, 64),
            Err(error) => keypair_pubkey(key@) is None && error == BotError::SigningError,
        },
{
    match keypair_address(key) {
        Some(address) => Ok(address),
        None => Err(BotError::SigningError),
    }
}

/// An address in the text form that the services expect.
pub fn address_text(address: &[u8; 32]) -> (text: String)
    ensures
        text@ == bs58_encoded(address@),
{
    encode_base58(address.as_slice())
}

/// Compiles the instructions, in the order given, against the lookup tables
/// and the recent blockhash, with the key's address as payer, and signs the
/// message with that one key. Nothing is reordered afterwards: the bytes
/// returned are the bytes signed. A transaction carries exactly one
/// signature and is never longer than `MAX_TRANSACTION_SIZE`.
pub fn build_transaction(
    instructions: &Vec<Instruction>,
    tables: &Vec<LookupTable>,
    blockhash: &[u8; 32],
    key: &Vec<u8>,
) -> (outcome: Result<Vec<u8>, BotError>)
    ensures
        build_view(outcome) == spec_build(
            instruction_views(instructions@),
            table_views(tables@),
            *blockhash,
            key@,
        ),
        outcome is Ok ==> outcome->Ok_0@.len() <= MAX_TRANSACTION_SIZE,
        outcome is Ok ==> is_singly_signed(outcome->Ok_0@),
{
    let payer = keypair_address(key);
    let message = match &payer {
        Some(address) => compile_message(*address, instructions, tables, *blockhash),
        None => None,
    };
    let signed = match &message {
        Some(bytes) => sign_transaction(key, bytes),
        None => None,
    };
    build_outcome(payer, message, signed)
}

} // verus!
