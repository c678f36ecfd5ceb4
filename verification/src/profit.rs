//! The profitability rule: decides from two quotes whether a round trip is
//! worth executing, and how large the relay tip is.

use vstd::prelude::*;

verus! {

/// Minimum gain, in the smallest unit of the input asset, that a round trip
/// must exceed before it is executed.
pub const PROFIT_THRESHOLD: u64 = 3000;

/// Gain of a round trip: what comes back minus what went in, never negative.
pub open spec fn spec_profit(leg0_amount: u64, round_trip_out: u64) -> nat {
    if round_trip_out >= leg0_amount {
        (round_trip_out - leg0_amount) as nat
    } else {
        0
    }
}

/// The tip paid to the relay: half of the gain, rounded down.
pub open spec fn spec_tip(leg0_amount: u64, round_trip_out: u64) -> nat {
    spec_profit(leg0_amount, round_trip_out) / 2
}

/// Whether the gain strictly exceeds the threshold.
pub open spec fn spec_profitable(leg0_amount: u64, round_trip_out: u64) -> bool {
    round_trip_out - leg0_amount > PROFIT_THRESHOLD
}

/// What was decided for one pair of quotes.
#[derive(Clone, Copy, Debug, PartialEq, Eq, Structural)]
pub enum Decision {
    /// The gain does not exceed the threshold: nothing is built or sent.
    Skip,
    /// The round trip is executed, with this tip.
    Execute { tip: u64 },
}

/// Gain of a round trip, clamped at zero.
pub fn profit(leg0_amount: u64, round_trip_out: u64) -> (diff: u64)
    ensures
        diff == spec_profit(leg0_amount, round_trip_out),
{
    if round_trip_out >= leg0_amount {
        round_trip_out - leg0_amount
    } else {
        0
    }
}

/// Tip for a round trip: half of its gain, rounded down.
pub fn tip_amount(leg0_amount: u64, round_trip_out: u64) -> (tip: u64)
    ensures
        tip == spec_tip(leg0_amount, round_trip_out),
{
    profit(leg0_amount, round_trip_out) / 2
}

/// The decision: `Execute` exactly when the gain exceeds the threshold,
/// and then with half of the gain as the tip.
pub fn evaluate(leg0_amount: u64, round_trip_out: u64) -> (decision: Decision)
    ensures
        spec_profitable(leg0_amount, round_trip_out) ==> decision == (Decision::Execute {
            tip: spec_tip(leg0_amount, round_trip_out) as u64,
        }),
        !spec_profitable(leg0_amount, round_trip_out) ==> decision == Decision::Skip,
{
    let diff: u64 = profit(leg0_amount, round_trip_out);
    if diff > PROFIT_THRESHOLD {
        Decision::Execute { tip: diff / 2 }
    } else {
        Decision::Skip
    }
}

/// For a round trip whose gain exceeds the threshold, the tip is half of the
/// gain rounded down: twice the tip is the gain or one less. Such a tip is at
/// least half of the threshold.
pub proof fn tip_is_half_of_gain(leg0_amount: u64, round_trip_out: u64)
    requires
        spec_profitable(leg0_amount, round_trip_out),
    ensures
        2 * spec_tip(leg0_amount, round_trip_out) <= round_trip_out - leg0_amount,
        round_trip_out - leg0_amount <= 2 * spec_tip(leg0_amount, round_trip_out) + 1,
        spec_tip(leg0_amount, round_trip_out) >= 1500,
        spec_tip(leg0_amount, round_trip_out) <= u64::MAX / 2,
{
}

} // verus!
