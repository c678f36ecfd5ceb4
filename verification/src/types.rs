//! The values that travel between the quote service, the assembler and the
//! relay.

use vstd::prelude::*;

verus! {

/// One hop of a route plan. The library stores and concatenates hops and
/// never looks inside one.
#[verifier::external_type_specification]
#[verifier::external_body]
pub struct ExRouteHop(serde_json::Value);

/// A request for the best route between two assets.
#[derive(Debug)]
pub struct QuoteParams {
    pub input_mint: String,
    pub output_mint: String,
    pub amount: u64,
    pub only_direct_routes: bool,
    pub slippage_bps: u64,
    pub max_accounts: u64,
}

/// A quote as the service returned it.
#[derive(Debug)]
pub struct QuoteResponse {
    pub input_mint: String,
    pub in_amount: u64,
    pub output_mint: String,
    pub out_amount: u64,
    pub other_amount_threshold: u64,
    pub price_impact_pct: String,
    pub route_plan: Vec<serde_json::Value>,
    pub context_slot: u64,
}

/// The body of a swap-instruction request.
#[derive(Debug)]
pub struct SwapData {
    pub user_public_key: String,
    pub wrap_and_unwrap_sol: bool,
    pub use_shared_accounts: bool,
    pub compute_unit_price_micro_lamports: u64,
    pub dynamic_compute_unit_limit: bool,
    pub skip_user_accounts_rpc_calls: bool,
    pub quote_response: QuoteResponse,
}

/// What the swap-instruction call returns.
#[derive(Debug)]
pub struct SwapInstructionResponse {
    pub compute_unit_limit: u32,
    pub setup_instructions: Vec<InstructionData>,
    pub swap_instruction: InstructionData,
    pub address_lookup_table_addresses: Vec<String>,
}

/// An instruction as the service describes it: addresses and payload in
/// their text encodings.
#[derive(Debug)]
pub struct InstructionData {
    pub program_id: String,
    pub accounts: Vec<AccountData>,
    pub data: String,
}

/// One account of an instruction description.
#[derive(Debug)]
pub struct AccountData {
    pub pubkey: String,
    pub is_signer: bool,
    pub is_writable: bool,
}

/// Everything that can end a cycle early.
#[derive(Clone, Copy, Debug, PartialEq, Eq)]
pub enum BotError {
    QuoteUnavailable,
    /// The table at this address could not be fetched or holds no table.
    LookupTableMissing { address: [u8; 32] },
    InvalidAddress,
    InvalidPayload,
    CompilationError,
    SigningError,
    BundleSubmitFailed,
    BundleAckMissing,
}

/// Fixed micro-fee price sent with every swap-instruction request.
pub const COMPUTE_UNIT_PRICE_MICRO_LAMPORTS: u64 = 1;

/// Account budget sent with every quote request.
pub const MAX_ACCOUNTS: u64 = 20;

/// Builds the quote request for one leg: no route restriction, no slippage
/// tolerance, the fixed account budget.
pub fn quote_params(input_mint: String, output_mint: String, amount: u64) -> (params: QuoteParams)
    requires
        amount > 0,
    ensures
        params.input_mint@ == input_mint@,
        params.output_mint@ == output_mint@,
        params.amount == amount,
        !params.only_direct_routes,
        params.slippage_bps == 0,
        params.max_accounts == MAX_ACCOUNTS,
{
    QuoteParams {
        input_mint,
        output_mint,
        amount,
        only_direct_routes: false,
        slippage_bps: 0,
        max_accounts: MAX_ACCOUNTS,
    }
}

/// Merges the two legs of a round trip into the one quote that the
/// swap-instruction call takes: the route plans are concatenated, leg 0's
/// out-amount becomes the threshold and leg 1's out-amount the result.
pub fn merge_quotes(quote0: QuoteResponse, quote1: QuoteResponse) -> (merged: QuoteResponse)
    ensures
        merged.route_plan@ == quote0.route_plan@ + quote1.route_plan@,
        merged.route_plan@.len() == quote0.route_plan@.len() + quote1.route_plan@.len(),
        merged.input_mint@ == quote0.input_mint@,
        merged.in_amount == quote0.in_amount,
        merged.output_mint@ == quote1.output_mint@,
        merged.out_amount == quote1.out_amount,
        merged.other_amount_threshold == quote0.out_amount,
        merged.price_impact_pct@ == quote0.price_impact_pct@,
        merged.context_slot == quote0.context_slot,
{
    let mut route_plan = quote0.route_plan;
    let mut tail = quote1.route_plan;
    route_plan.append(&mut tail);
    QuoteResponse {
        input_mint: quote0.input_mint,
        in_amount: quote0.in_amount,
        output_mint: quote1.output_mint,
        out_amount: quote1.out_amount,
        other_amount_threshold: quote0.out_amount,
        price_impact_pct: quote0.price_impact_pct,
        route_plan,
        context_slot: quote0.context_slot,
    }
}

/// Builds the swap-instruction request for a merged quote, with the fixed
/// execution preferences.
pub fn swap_data(user_public_key: String, quote_response: QuoteResponse) -> (data: SwapData)
    ensures
        data.user_public_key@ == user_public_key@,
        !data.wrap_and_unwrap_sol,
        !data.use_shared_accounts,
        data.compute_unit_price_micro_lamports == COMPUTE_UNIT_PRICE_MICRO_LAMPORTS,
        data.dynamic_compute_unit_limit,
        data.skip_user_accounts_rpc_calls,
        data.quote_response == quote_response,
{
    SwapData {
        user_public_key,
        wrap_and_unwrap_sol: false,
        use_shared_accounts: false,
        compute_unit_price_micro_lamports: COMPUTE_UNIT_PRICE_MICRO_LAMPORTS,
        dynamic_compute_unit_limit: true,
        skip_user_accounts_rpc_calls: true,
        quote_response,
    }
}

} // verus!
