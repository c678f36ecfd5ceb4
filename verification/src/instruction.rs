//! The instruction assembler: turns instruction descriptions into executable
//! instructions and puts a transaction's instructions in their fixed order.

use vstd::prelude::*;
use crate::sdk::{
    bs58_decoded, compute_unit_limit_instruction, decode_base58, is_budget_instruction,
    is_transfer_instruction, parse_address, pubkey_from_str, transfer_instruction,
};
use crate::types::{AccountData, BotError, InstructionData, SwapInstructionResponse};

verus! {

/// Address of the relay's tip-collection account.
pub const JITO_TIP_ACCOUNT: &'static str = "Cw8CFyM9FkoMi7K7Crf6HNQqf4uEMzpKw6QNghXLvLkY";

/// One account that an instruction touches.
#[derive(Clone, Copy, Debug, PartialEq, Eq)]
pub struct AccountMeta {
    pub pubkey: [u8; 32],
    pub is_signer: bool,
    pub is_writable: bool,
}

/// An executable instruction: the program it runs, the accounts it touches
/// and its payload.
#[derive(Clone, Debug, PartialEq, Eq)]
pub struct Instruction {
    pub program_id: [u8; 32],
    pub accounts: Vec<AccountMeta>,
    pub data: Vec<u8>,
}

/// What an instruction is, as mathematics.
pub struct InstructionView {
    pub program_id: [u8; 32],
    pub accounts: Seq<AccountMeta>,
    pub data: Seq<u8>,
}

impl View for Instruction {
    type V = InstructionView;

    open spec fn view(&self) -> InstructionView {
        InstructionView { program_id: self.program_id, accounts: self.accounts@, data: self.data@ }
    }
}

/// The views of a list of instructions, in order.
pub open spec fn instruction_views(instructions: Seq<Instruction>) -> Seq<InstructionView> {
    Seq::new(instructions.len(), |i: int| instructions[i]@)
}

/// An account of a description after its address was parsed.
#[derive(Clone, Copy, Debug)]
pub struct ParsedAccount {
    pub pubkey: Option<[u8; 32]>,
    pub is_signer: bool,
    pub is_writable: bool,
}

/// The account that a parsed account stands for, once its address is known.
pub open spec fn resolved_account(account: ParsedAccount) -> AccountMeta {
    AccountMeta {
        pubkey: account.pubkey->Some_0,
        is_signer: account.is_signer,
        is_writable: account.is_writable,
    }
}

/// What a description yields once its three parts are parsed: an address
/// that did not parse is `InvalidAddress`, a payload that did not decode is
/// `InvalidPayload`, and an address error comes first.
pub open spec fn spec_from_parsed(
    program_id: Option<[u8; 32]>,
    accounts: Seq<ParsedAccount>,
    data: Option<Seq<u8>>,
) -> Result<InstructionView, BotError> {
    if program_id is None || exists|i: int|
        0 <= i < accounts.len() && (#[trigger] accounts[i]).pubkey is None {
        Err(BotError::InvalidAddress)
    } else if data is None {
        Err(BotError::InvalidPayload)
    } else {
        Ok(
            InstructionView {
                program_id: program_id->Some_0,
                accounts: Seq::new(accounts.len(), |i: int| resolved_account(accounts[i])),
                data: data->Some_0,
            },
        )
    }
}

/// The view of a conversion's outcome.
pub open spec fn outcome_view(outcome: Result<Instruction, BotError>) -> Result<
    InstructionView,
    BotError,
> {
    match outcome {
        Ok(instruction) => Ok(instruction@),
        Err(e) => Err(e),
    }
}

/// The view of an optional byte vector.
pub open spec fn bytes_view(bytes: Option<Vec<u8>>) -> Option<Seq<u8>> {
    match bytes {
        Some(b) => Some(b@),
        None => None,
    }
}

/// Builds an instruction from the parsed parts of a description.
pub fn instruction_from_parsed(
    program_id: Option<[u8; 32]>,
    accounts: &Vec<ParsedAccount>,
    data: Option<Vec<u8>>,
) -> (outcome: Result<Instruction, BotError>)
    ensures
        outcome_view(outcome) == spec_from_parsed(program_id, accounts@, bytes_view(data)),
{
    let program_id = match program_id {
        Some(p) => p,
        None => {
            return Err(BotError::InvalidAddress);
        },
    };
    let mut metas: Vec<AccountMeta> = Vec::new();
    let mut i: usize = 0;
    while i < accounts.len()
        invariant
            i <= accounts.len(),
            metas@.len() == i,
            forall|j: int| 0 <= j < i ==> (#[trigger] accounts@[j]).pubkey is Some,
            forall|j: int| 0 <= j < i ==> #[trigger] metas@[j] == resolved_account(accounts@[j]),
        decreases accounts.len() - i,
    {
        let account = accounts[i];
        match account.pubkey {
            Some(pubkey) => {
                metas.push(
                    AccountMeta {
                        pubkey,
                        is_signer: account.is_signer,
                        is_writable: account.is_writable,
                    },
                );
            },
            None => {
                return Err(BotError::InvalidAddress);
            },
        }
        i += 1;
    }
    match data {
        Some(data) => {
            assert(metas@ =~= Seq::new(
                accounts@.len(),
                |i: int| resolved_account(accounts@[i]),
            ));
            Ok(Instruction { program_id, accounts: metas, data })
        },
        None => Err(BotError::InvalidPayload),
    }
}

/// An account of a description with its address parsed.
pub open spec fn spec_parsed_account(account: AccountData) -> ParsedAccount {
    ParsedAccount {
        pubkey: pubkey_from_str(account.pubkey@),
        is_signer: account.is_signer,
        is_writable: account.is_writable,
    }
}

/// What converting a description yields.
pub open spec fn spec_convert(description: InstructionData) -> Result<InstructionView, BotError> {
    spec_from_parsed(
        pubkey_from_str(description.program_id@),
        Seq::new(
            description.accounts@.len(),
            |i: int| spec_parsed_account(description.accounts@[i]),
        ),
        bs58_decoded(description.data@),
    )
}

/// Converts an instruction description into an executable instruction.
pub fn convert_instruction_data(ix_data: &InstructionData) -> (outcome: Result<
    Instruction,
    BotError,
>)
    ensures
        outcome_view(outcome) == spec_convert(*ix_data),
{
    let program_id = parse_address(ix_data.program_id.as_str());
    let mut parsed: Vec<ParsedAccount> = Vec::new();
    let mut i: usize = 0;
    while i < ix_data.accounts.len()
        invariant
            i <= ix_data.accounts.len(),
            parsed@.len() == i,
            forall|j: int|
                0 <= j < i ==> #[trigger] parsed@[j] == spec_parsed_account(ix_data.accounts@[j]),
        decreases ix_data.accounts.len() - i,
    {
        let account = &ix_data.accounts[i];
        parsed.push(
            ParsedAccount {
                pubkey: parse_address(account.pubkey.as_str()),
                is_signer: account.is_signer,
                is_writable: account.is_writable,
            },
        );
        i += 1;
    }
    assert(parsed@ =~= Seq::new(
        ix_data.accounts@.len(),
        |i: int| spec_parsed_account(ix_data.accounts@[i]),
    ));
    let data = decode_base58(ix_data.data.as_str());
    instruction_from_parsed(program_id, &parsed, data)
}

/// The compute-budget directive that caps a transaction at `units`.
pub fn budget_instruction(units: u32) -> (instruction: Instruction)
    ensures
        is_budget_instruction(instruction@, units),
{
    compute_unit_limit_instruction(units)
}

/// The tip: a transfer of `amount` from the payer to the tip account. A tip
/// of zero is built like any other.
pub fn tip_instruction(payer: &[u8; 32], tip_account: &[u8; 32], amount: u64) -> (instruction:
    Instruction)
    ensures
        is_transfer_instruction(instruction@, *payer, *tip_account, amount),
{
    transfer_instruction(payer, tip_account, amount)
}

/// The fixed order of a transaction's instructions: the compute budget,
/// the setup instructions as they were received, the swap, the tip.
pub open spec fn spec_ordered(
    budget: Instruction,
    setup: Seq<Instruction>,
    swap: Instruction,
    tip: Instruction,
) -> Seq<Instruction> {
    seq![budget] + setup + seq![swap, tip]
}

/// Puts a transaction's instructions in their fixed order.
pub fn assemble(budget: Instruction, setup: Vec<Instruction>, swap: Instruction, tip: Instruction) -> (all:
    Vec<Instruction>)
    ensures
        all@ == spec_ordered(budget, setup@, swap, tip),
        all@.len() == setup@.len() + 3,
        all@[0] == budget,
        forall|j: int| 0 <= j < setup@.len() ==> all@[j + 1] == setup@[j],
        all@[setup@.len() as int + 1] == swap,
        all@[setup@.len() as int + 2] == tip,
{
    let mut all: Vec<Instruction> = Vec::new();
    let mut rest = setup;
    all.push(budget);
    all.append(&mut rest);
    all.push(swap);
    all.push(tip);
    assert(all@ =~= spec_ordered(budget, setup@, swap, tip));
    all
}

/// Whether the first `upto` setup descriptions all convert.
pub open spec fn setup_converts(setup: Seq<InstructionData>, upto: int) -> bool {
    forall|j: int| 0 <= j < upto ==> spec_convert(#[trigger] setup[j]) is Ok
}

/// Whether `error` is what assembling a response fails with: the error of
/// the first setup description that does not convert, else that of the swap
/// description, else `InvalidAddress` for a tip account that does not parse.
pub open spec fn spec_assembly_error(response: SwapInstructionResponse, error: BotError) -> bool {
    let setup = response.setup_instructions@;
    ||| exists|i: int|
        0 <= i < setup.len() && setup_converts(setup, i) && spec_convert(#[trigger] setup[i])
            == Err::<InstructionView, BotError>(error)
    ||| setup_converts(setup, setup.len() as int) && spec_convert(response.swap_instruction)
        == Err::<InstructionView, BotError>(error)
    ||| setup_converts(setup, setup.len() as int) && spec_convert(response.swap_instruction) is Ok
        && pubkey_from_str(JITO_TIP_ACCOUNT@) is None && error == BotError::InvalidAddress
}

/// Whether `views` is the instruction list of a response: every description
/// converts, and the list holds the budget directive, the converted setup
/// instructions in order, the converted swap and the tip, and nothing else.
pub open spec fn spec_assembled(
    response: SwapInstructionResponse,
    payer: [u8; 32],
    tip: u64,
    views: Seq<InstructionView>,
) -> bool {
    let setup = response.setup_instructions@;
    &&& setup_converts(setup, setup.len() as int)
    &&& pubkey_from_str(JITO_TIP_ACCOUNT@) is Some
    &&& views.len() == setup.len() + 3
    &&& is_budget_instruction(views[0], response.compute_unit_limit)
    &&& forall|j: int|
        0 <= j < setup.len() ==> spec_convert(#[trigger] setup[j]) == Ok::<
            InstructionView,
            BotError,
        >(views[j + 1])
    &&& spec_convert(response.swap_instruction) == Ok::<InstructionView, BotError>(
        views[setup.len() as int + 1],
    )
    &&& is_transfer_instruction(
        views[setup.len() as int + 2],
        payer,
        pubkey_from_str(JITO_TIP_ACCOUNT@)->Some_0,
        tip,
    )
}

/// Builds the instruction list of one round trip from the service's
/// response: nothing is produced unless every description converts.
pub fn build_instructions(response: &SwapInstructionResponse, payer: &[u8; 32], tip: u64) -> (outcome:
    Result<Vec<Instruction>, BotError>)
    ensures
        match outcome {
            Ok(all) => spec_assembled(*response, *payer, tip, instruction_views(all@)),
            Err(error) => spec_assembly_error(*response, error),
        },
{
    let budget = budget_instruction(response.compute_unit_limit);
    let mut setup: Vec<Instruction> = Vec::new();
    let mut i: usize = 0;
    while i < response.setup_instructions.len()
        invariant
            i <= response.setup_instructions.len(),
            setup@.len() == i,
            forall|j: int|
                0 <= j < i ==> spec_convert(#[trigger] response.setup_instructions@[j]) == Ok::<
                    InstructionView,
                    BotError,
                >(setup@[j]@),
        decreases response.setup_instructions.len() - i,
    {
        match convert_instruction_data(&response.setup_instructions[i]) {
            Ok(instruction) => {
                setup.push(instruction);
            },
            Err(error) => {
                assert(setup_converts(response.setup_instructions@, i as int));
                return Err(error);
            },
        }
        i += 1;
    }
    assert(setup_converts(
        response.setup_instructions@,
        response.setup_instructions@.len() as int,
    ));
    let swap = match convert_instruction_data(&response.swap_instruction) {
        Ok(instruction) => instruction,
        Err(error) => {
            return Err(error);
        },
    };
    let tip_account = match parse_address(JITO_TIP_ACCOUNT) {
        Some(address) => address,
        None => {
            return Err(BotError::InvalidAddress);
        },
    };
    let tip_ix = tip_instruction(payer, &tip_account, tip);
    let all = assemble(budget, setup, swap, tip_ix);
    Ok(all)
}

/// The instruction list of a response is fixed by the response, the payer
/// and the tip: two lists that both are its instruction list are the same
/// list, instruction for instruction and in the same order.
pub proof fn assembled_list_is_unique(
    response: SwapInstructionResponse,
    payer: [u8; 32],
    tip: u64,
    first: Seq<InstructionView>,
    second: Seq<InstructionView>,
)
    requires
        spec_assembled(response, payer, tip, first),
        spec_assembled(response, payer, tip, second),
    ensures
        first == second,
{
    let setup = response.setup_instructions@;
    let last = setup.len() as int + 2;
    assert(first[0].program_id =~= second[0].program_id);
    assert(first[last].program_id =~= second[last].program_id);
    assert forall|i: int| 0 <= i < first.len() implies first[i] == second[i] by {
        if 1 <= i <= setup.len() {
            let j = i - 1;
            assert(spec_convert(setup[j]) == Ok::<InstructionView, BotError>(first[j + 1]));
            assert(spec_convert(setup[j]) == Ok::<InstructionView, BotError>(second[j + 1]));
        }
    }
    assert(first =~= second);
}

} // verus!
