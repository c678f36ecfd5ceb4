//! One arbitrage cycle as a state machine. The caller performs the outside
//! work that each action names and reports back what happened; every
//! decision is taken here.

use vstd::prelude::*;
use crate::profit::{evaluate, spec_profitable, spec_tip, Decision};
use crate::types::{quote_params, QuoteParams, MAX_ACCOUNTS};

verus! {

/// The asset that a round trip starts from and returns to.
pub const WSOL_MINT: &'static str = "So11111111111111111111111111111111111111112";

/// The asset in between.
pub const USDC_MINT: &'static str = "EPjFWdd5AufqSSqeM2qN1xzybapC8G4wEGGkZwyTDt1v";

/// Amount requested on the first leg, in the smallest unit of the input asset.
pub const LEG0_AMOUNT: u64 = 10_000_000;

/// Where a cycle stands.
#[derive(Clone, Copy, Debug, PartialEq, Eq, Structural)]
pub enum CycleState {
    Idle,
    QuotingLeg0,
    QuotingLeg1 { leg0_amount: u64, leg0_out: u64 },
    Evaluating { leg0_amount: u64, round_trip_out: u64 },
    Executing { tip: u64 },
}

/// What the caller reports after performing an action.
#[derive(Clone, Copy, Debug, PartialEq, Eq, Structural)]
pub enum CycleEvent {
    /// The inter-cycle delay has passed.
    Tick,
    /// A quote arrived, with this out-amount.
    QuoteReceived { out_amount: u64 },
    /// No outside work was asked for; the machine moves on by itself.
    Proceed,
    /// The build-and-submit step ended without an error.
    Submitted,
    /// The outside work failed.
    Failed,
}

/// What the caller has to do next.
#[derive(Clone, Copy, Debug, PartialEq, Eq, Structural)]
pub enum CycleAction {
    /// Wait for the fixed delay, then report `Tick`.
    Sleep,
    /// Fetch a quote for this amount on this leg.
    RequestQuote { leg: u8, amount: u64 },
    /// Report `Proceed` at once.
    Decide,
    /// Build, sign and submit the round trip with this tip.
    Execute { tip: u64 },
}

/// The next state and the next action, for every state and event. The
/// second leg asks for exactly what the first leg gave; a first leg that
/// gave nothing leaves no amount to ask for and ends the cycle. An event
/// that a state does not expect ends the cycle too.
pub open spec fn spec_step(state: CycleState, event: CycleEvent) -> (CycleState, CycleAction) {
    match (state, event) {
        (CycleState::Idle, CycleEvent::Tick) => (
            CycleState::QuotingLeg0,
            CycleAction::RequestQuote { leg: 0, amount: LEG0_AMOUNT },
        ),
        (CycleState::QuotingLeg0, CycleEvent::QuoteReceived { out_amount }) => if out_amount > 0 {
            (
                CycleState::QuotingLeg1 { leg0_amount: LEG0_AMOUNT, leg0_out: out_amount },
                CycleAction::RequestQuote { leg: 1, amount: out_amount },
            )
        } else {
            (CycleState::Idle, CycleAction::Sleep)
        },
        (CycleState::QuotingLeg1 { leg0_amount, leg0_out }, CycleEvent::QuoteReceived { out_amount }) => (
            CycleState::Evaluating { leg0_amount, round_trip_out: out_amount },
            CycleAction::Decide,
        ),
        (CycleState::Evaluating { leg0_amount, round_trip_out }, CycleEvent::Proceed) => {
            if spec_profitable(leg0_amount, round_trip_out) {
                let tip = spec_tip(leg0_amount, round_trip_out) as u64;
                (CycleState::Executing { tip }, CycleAction::Execute { tip })
            } else {
                (CycleState::Idle, CycleAction::Sleep)
            }
        },
        _ => (CycleState::Idle, CycleAction::Sleep),
    }
}

/// Whether an action writes to the network (anything beyond reading quotes).
pub open spec fn is_network_write(action: CycleAction) -> bool {
    action is Execute
}

/// The state in which every cycle starts and ends.
pub fn initial_state() -> (state: CycleState)
    ensures
        state == CycleState::Idle,
{
    CycleState::Idle
}

/// The quote request of a leg: the first leg goes from the starting asset
/// to the one in between, the second leg comes back.
pub fn leg_quote_params(leg: u8, amount: u64) -> (params: QuoteParams)
    requires
        amount > 0,
    ensures
        params.input_mint@ == (if leg == 0 { WSOL_MINT@ } else { USDC_MINT@ }),
        params.output_mint@ == (if leg == 0 { USDC_MINT@ } else { WSOL_MINT@ }),
        params.amount == amount,
        !params.only_direct_routes,
        params.slippage_bps == 0,
        params.max_accounts == MAX_ACCOUNTS,
{
    if leg == 0 {
        quote_params(WSOL_MINT.to_owned(), USDC_MINT.to_owned(), amount)
    } else {
        quote_params(USDC_MINT.to_owned(), WSOL_MINT.to_owned(), amount)
    }
}

/// Advances the cycle by one event.
pub fn step(state: CycleState, event: CycleEvent) -> (next: (CycleState, CycleAction))
    ensures
        next == spec_step(state, event),
{
    match state {
        CycleState::Idle => match event {
            CycleEvent::Tick => (
                CycleState::QuotingLeg0,
                CycleAction::RequestQuote { leg: 0, amount: LEG0_AMOUNT },
            ),
            _ => (CycleState::Idle, CycleAction::Sleep),
        },
        CycleState::QuotingLeg0 => match event {
            CycleEvent::QuoteReceived { out_amount } => if out_amount > 0 {
                (
                    CycleState::QuotingLeg1 { leg0_amount: LEG0_AMOUNT, leg0_out: out_amount },
                    CycleAction::RequestQuote { leg: 1, amount: out_amount },
                )
            } else {
                (CycleState::Idle, CycleAction::Sleep)
            },
            _ => (CycleState::Idle, CycleAction::Sleep),
        },
        CycleState::QuotingLeg1 { leg0_amount, leg0_out: _ } => match event {
            CycleEvent::QuoteReceived { out_amount } => (
                CycleState::Evaluating { leg0_amount, round_trip_out: out_amount },
                CycleAction::Decide,
            ),
            _ => (CycleState::Idle, CycleAction::Sleep),
        },
        CycleState::Evaluating { leg0_amount, round_trip_out } => match event {
            CycleEvent::Proceed => match evaluate(leg0_amount, round_trip_out) {
                Decision::Execute { tip } => (
                    CycleState::Executing { tip },
                    CycleAction::Execute { tip },
                ),
                Decision::Skip => (CycleState::Idle, CycleAction::Sleep),
            },
            _ => (CycleState::Idle, CycleAction::Sleep),
        },
        CycleState::Executing { tip: _ } => (CycleState::Idle, CycleAction::Sleep),
    }
}

/// A cycle whose gain does not exceed the threshold asks for no network
/// write: from `Evaluating` it goes straight back to `Idle`.
pub proof fn unprofitable_cycle_is_a_no_op(leg0_amount: u64, round_trip_out: u64, event: CycleEvent)
    requires
        round_trip_out - leg0_amount <= crate::profit::PROFIT_THRESHOLD,
    ensures
        spec_step(CycleState::Evaluating { leg0_amount, round_trip_out }, event).0
            == CycleState::Idle,
        !is_network_write(
            spec_step(CycleState::Evaluating { leg0_amount, round_trip_out }, event).1,
        ),
{
}

/// Only an `Evaluating` state with a gain above the threshold ever asks for
/// execution, and then with half of the gain, rounded down, as the tip.
pub proof fn execution_only_above_threshold(state: CycleState, event: CycleEvent)
    requires
        is_network_write(spec_step(state, event).1),
    ensures
        state is Evaluating,
        event is Proceed,
        state->round_trip_out - state->Evaluating_leg0_amount > crate::profit::PROFIT_THRESHOLD,
        spec_step(state, event).1 == (CycleAction::Execute {
            tip: ((state->round_trip_out - state->Evaluating_leg0_amount) / 2) as u64,
        }),
        spec_step(state, event).0 == (CycleState::Executing {
            tip: ((state->round_trip_out - state->Evaluating_leg0_amount) / 2) as u64,
        }),
{
}

/// Whatever happens while executing, the cycle ends in `Idle` and nothing
/// is tried again.
pub proof fn executing_always_returns_to_idle(tip: u64, event: CycleEvent)
    ensures
        spec_step(CycleState::Executing { tip }, event) == (CycleState::Idle, CycleAction::Sleep),
{
}

/// Every quote that is asked for is for a positive amount, and the second
/// leg follows the first.
pub proof fn requested_amounts_are_positive(state: CycleState, event: CycleEvent)
    requires
        spec_step(state, event).1 is RequestQuote,
    ensures
        spec_step(state, event).1->amount > 0,
        spec_step(state, event).1->leg == 0 <==> state is Idle,
        spec_step(state, event).1->leg == 1 <==> state is QuotingLeg0,
        spec_step(state, event).1->leg <= 1,
{
}

/// A failure in any state abandons the cycle.
pub proof fn failure_abandons_the_cycle(state: CycleState)
    ensures
        spec_step(state, CycleEvent::Failed) == (CycleState::Idle, CycleAction::Sleep),
{
}

/// Every cycle comes back to `Idle`: from any state, whatever events
/// arrive, the machine stands in `Idle` again after four steps at the
/// latest.
pub proof fn cycle_returns_to_idle(
    state: CycleState,
    e1: CycleEvent,
    e2: CycleEvent,
    e3: CycleEvent,
    e4: CycleEvent,
)
    requires
        !(state is Idle),
    ensures
        ({
            let s1 = spec_step(state, e1).0;
            let s2 = spec_step(s1, e2).0;
            let s3 = spec_step(s2, e3).0;
            let s4 = spec_step(s3, e4).0;
            s1 is Idle || s2 is Idle || s3 is Idle || s4 is Idle
        }),
{
}

} // verus!
