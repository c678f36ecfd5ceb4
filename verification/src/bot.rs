//! The arbitrage bot: the one holder of the signing key, the state of the
//! running cycle, and the steps of an execution.

use vstd::prelude::*;
use crate::bundle::{bundle_for, is_bundle_of, BundleRequest};
use crate::cycle::{spec_step, step, CycleAction, CycleEvent, CycleState};
use crate::instruction::{
    build_instructions, instruction_views, spec_assembled, spec_assembly_error, Instruction,
    InstructionView,
};
use crate::lookup::{
    first_missing, first_missing_is_least, resolve_all, spec_resolved_all, table_views,
    FetchedAccount, LookupTableView,
};
use crate::sdk::{bs58_encoded, keypair_pubkey};
use crate::transaction::{address_text, build_transaction, payer_address, spec_build};
use crate::types::{
    merge_quotes, swap_data, BotError, QuoteResponse, SwapData, SwapInstructionResponse,
    COMPUTE_UNIT_PRICE_MICRO_LAMPORTS,
};

verus! {

/// The bot. It alone holds the signing key, and hands it to nobody.
pub struct ArbitrageBot {
    key: Vec<u8>,
    payer: [u8; 32],
    state: CycleState,
}

/// The tables behind a resolution in which nothing is missing.
pub open spec fn resolved_tables(resolved: Seq<Option<LookupTableView>>) -> Seq<LookupTableView> {
    Seq::new(resolved.len(), |i: int| resolved[i]->Some_0)
}

/// What an execution yields from the assembled instructions and what was
/// fetched for the lookup tables: `LookupTableMissing` for the first address
/// that did not resolve, else the error of the build, else the signed
/// transaction's bytes.
pub open spec fn spec_execute(
    key: Seq<u8>,
    instructions: Seq<InstructionView>,
    keys: Seq<[u8; 32]>,
    fetched: Seq<Option<FetchedAccount>>,
    blockhash: [u8; 32],
) -> Result<Seq<u8>, BotError> {
    let resolved = spec_resolved_all(keys, fetched);
    let missing = first_missing(resolved, resolved.len() as int);
    if missing < resolved.len() {
        Err(BotError::LookupTableMissing { address: keys[missing] })
    } else {
        spec_build(instructions, resolved_tables(resolved), blockhash, key)
    }
}

impl ArbitrageBot {
    /// The bytes of the signing key.
    pub closed spec fn key_view(&self) -> Seq<u8> {
        self.key@
    }

    /// The address that pays and signs.
    pub closed spec fn payer(&self) -> [u8; 32] {
        self.payer
    }

    /// Where the running cycle stands.
    pub closed spec fn state(&self) -> CycleState {
        self.state
    }

    /// The payer is the address of the key.
    pub closed spec fn wf(&self) -> bool {
        keypair_pubkey(self.key@) == Some(self.payer)
    }

    /// Takes the signing key. A key that is unusable is refused with
    /// `SigningError`; an accepted bot starts in `Idle`.
    pub fn new(key: Vec<u8>) -> (outcome: Result<ArbitrageBot, BotError>)
        ensures
            match outcome {
                Ok(bot) => {
                    &&& bot.wf()
                    &&& bot.key_view() == key@
                    &&& keypair_pubkey(key@) == Some(bot.payer())
                    &&& bot.state() == CycleState::Idle
                },
                Err(error) => keypair_pubkey(key@) is None && error == BotError::SigningError,
            },
    {
        match payer_address(&key) {
            Ok(payer) => Ok(ArbitrageBot { key, payer, state: CycleState::Idle }),
            Err(error) => Err(error),
        }
    }

    /// The address that pays and signs.
    pub fn payer_address(&self) -> (address: [u8; 32])
        ensures
            address == self.payer(),
    {
        self.payer
    }

    /// Where the running cycle stands.
    pub fn cycle_state(&self) -> (state: CycleState)
        ensures
            state == self.state(),
    {
        self.state
    }

    /// Advances the running cycle by one event and says what to do next.
    /// The key is untouched.
    pub fn run(&mut self, event: CycleEvent) -> (action: CycleAction)
        ensures
            final(self).wf() == old(self).wf(),
            final(self).key_view() == old(self).key_view(),
            final(self).payer() == old(self).payer(),
            (final(self).state(), action) == spec_step(old(self).state(), event),
    {
        let (next, action) = step(self.state, event);
        self.state = next;
        action
    }

    /// The swap-instruction request for the two legs of a round trip, in
    /// the payer's name.
    pub fn swap_request(&self, quote0: QuoteResponse, quote1: QuoteResponse) -> (data: SwapData)
        ensures
            data.user_public_key@ == bs58_encoded(self.payer()@),
            data.quote_response.route_plan@ == quote0.route_plan@ + quote1.route_plan@,
            data.quote_response.input_mint@ == quote0.input_mint@,
            data.quote_response.in_amount == quote0.in_amount,
            data.quote_response.output_mint@ == quote1.output_mint@,
            data.quote_response.out_amount == quote1.out_amount,
            data.quote_response.other_amount_threshold == quote0.out_amount,
            data.quote_response.price_impact_pct@ == quote0.price_impact_pct@,
            data.quote_response.context_slot == quote0.context_slot,
            !data.wrap_and_unwrap_sol,
            !data.use_shared_accounts,
            data.compute_unit_price_micro_lamports == COMPUTE_UNIT_PRICE_MICRO_LAMPORTS,
            data.dynamic_compute_unit_limit,
            data.skip_user_accounts_rpc_calls,
    {
        swap_data(address_text(&self.payer), merge_quotes(quote0, quote1))
    }

    /// The ordered instructions of a round trip that the payer tips with
    /// `tip`.
    pub fn instructions(&self, response: &SwapInstructionResponse, tip: u64) -> (outcome: Result<
        Vec<Instruction>,
        BotError,
    >)
        ensures
            match outcome {
                Ok(all) => spec_assembled(*response, self.payer(), tip, instruction_views(all@)),
                Err(error) => spec_assembly_error(*response, error),
            },
    {
        build_instructions(response, &self.payer, tip)
    }

    /// Resolves the lookup tables, builds and signs the transaction, and
    /// frames it as a bundle. A table that did not resolve ends the
    /// execution before anything is built.
    pub fn execute_arbitrage(
        &self,
        instructions: &Vec<Instruction>,
        keys: &Vec<[u8; 32]>,
        fetched: &Vec<Option<FetchedAccount>>,
        blockhash: &[u8; 32],
    ) -> (outcome: Result<BundleRequest, BotError>)
        ensures
            match outcome {
                Ok(request) => {
                    let built = spec_execute(
                        self.key_view(),
                        instruction_views(instructions@),
                        keys@,
                        fetched@,
                        *blockhash,
                    );
                    built is Ok && is_bundle_of(request, bs58_encoded(built->Ok_0))
                },
                Err(error) => spec_execute(
                    self.key_view(),
                    instruction_views(instructions@),
                    keys@,
                    fetched@,
                    *blockhash,
                ) == Err::<Seq<u8>, BotError>(error),
            },
    {
        let tables = match resolve_all(keys, fetched) {
            Ok(tables) => tables,
            Err(error) => {
                return Err(error);
            },
        };
        proof {
            let resolved = spec_resolved_all(keys@, fetched@);
            assert(table_views(tables@) =~= resolved_tables(resolved));
        }
        match build_transaction(instructions, &tables, blockhash, &self.key) {
            Ok(transaction) => Ok(bundle_for(&transaction)),
            Err(error) => Err(error),
        }
    }
}

/// One table that does not resolve aborts the whole execution: whatever
/// the instructions, the key and the other tables are, the outcome is
/// `LookupTableMissing` for an address at or before that table's, and no
/// transaction exists.
pub proof fn missing_table_aborts_execution(
    key: Seq<u8>,
    instructions: Seq<InstructionView>,
    keys: Seq<[u8; 32]>,
    fetched: Seq<Option<FetchedAccount>>,
    blockhash: [u8; 32],
    at: int,
)
    requires
        0 <= at < keys.len(),
        spec_resolved_all(keys, fetched)[at] is None,
    ensures
        spec_execute(key, instructions, keys, fetched, blockhash) is Err,
        exists|i: int|
            0 <= i <= at && spec_execute(key, instructions, keys, fetched, blockhash) == Err::<
                Seq<u8>,
                BotError,
            >(BotError::LookupTableMissing { address: #[trigger] keys[i] }),
{
    let resolved = spec_resolved_all(keys, fetched);
    first_missing_is_least(resolved, resolved.len() as int);
    let missing = first_missing(resolved, resolved.len() as int);
    if missing > at {
        assert(resolved[at] is Some);
    }
    assert(spec_execute(key, instructions, keys, fetched, blockhash) == Err::<Seq<u8>, BotError>(
        BotError::LookupTableMissing { address: keys[missing] },
    ));
}

} // verus!
