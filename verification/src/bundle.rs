//! The bundle submitter's framing: what is sent to the relay for a signed
//! transaction, and what the relay's answer means.

use vstd::prelude::*;
use crate::sdk::{bs58_encoded, encode_base58};
use crate::types::BotError;

verus! {

/// The relay's method for submitting a bundle.
pub const SEND_BUNDLE: &'static str = "sendBundle";

/// The protocol version of every request.
pub const JSONRPC_VERSION: &'static str = "2.0";

/// A bundle request: one call of `sendBundle` whose only parameter is a
/// bundle of encoded transactions.
#[derive(Clone, Debug, PartialEq, Eq)]
pub struct BundleRequest {
    pub jsonrpc: String,
    pub id: u64,
    pub method: String,
    pub params: Vec<Vec<String>>,
}

/// What came back from the relay.
#[derive(Clone, Debug, PartialEq, Eq)]
pub enum RelayResponse {
    /// The request did not go through.
    TransportFailed,
    /// The relay answered, with or without a bundle identifier.
    Answered { result: Option<String> },
}

/// The end of a submission.
#[derive(Clone, Debug, PartialEq, Eq)]
pub struct BundleResult {
    pub submitted: bool,
    pub bundle_id: Option<String>,
}

/// Whether a request is the one-element bundle that holds `encoded`.
pub open spec fn is_bundle_of(request: BundleRequest, encoded: Seq<char>) -> bool {
    &&& request.jsonrpc@ == JSONRPC_VERSION@
    &&& request.id == 1
    &&& request.method@ == SEND_BUNDLE@
    &&& request.params@.len() == 1
    &&& request.params@[0]@.len() == 1
    &&& request.params@[0]@[0]@ == encoded
}

/// The text encoding of a signed transaction that the relay expects.
pub fn encode_transaction(transaction: &Vec<u8>) -> (encoded: String)
    ensures
        encoded@ == bs58_encoded(transaction@),
{
    encode_base58(transaction.as_slice())
}

/// Wraps an encoded transaction in a single-element bundle request.
pub fn bundle_request(encoded: String) -> (request: BundleRequest)
    ensures
        is_bundle_of(request, encoded@),
{
    let mut bundle: Vec<String> = Vec::new();
    bundle.push(encoded);
    let mut params: Vec<Vec<String>> = Vec::new();
    params.push(bundle);
    BundleRequest {
        jsonrpc: JSONRPC_VERSION.to_owned(),
        id: 1,
        method: SEND_BUNDLE.to_owned(),
        params,
    }
}

/// The bundle request for a signed transaction.
pub fn bundle_for(transaction: &Vec<u8>) -> (request: BundleRequest)
    ensures
        is_bundle_of(request, bs58_encoded(transaction@)),
{
    bundle_request(encode_transaction(transaction))
}

/// What a relay response means: a transport failure is
/// `BundleSubmitFailed`; any answer counts as submitted, with the
/// identifier that it carried, if any.
pub fn bundle_outcome(response: RelayResponse) -> (outcome: Result<BundleResult, BotError>)
    ensures
        response is TransportFailed ==> outcome == Err::<BundleResult, BotError>(
            BotError::BundleSubmitFailed,
        ),
        response is Answered ==> outcome == Ok::<BundleResult, BotError>(
            BundleResult { submitted: true, bundle_id: response->result },
        ),
{
    match response {
        RelayResponse::TransportFailed => Err(BotError::BundleSubmitFailed),
        RelayResponse::Answered { result } => Ok(BundleResult { submitted: true, bundle_id: result }),
    }
}

/// The soft failure of a submission: `BundleAckMissing` exactly when the
/// relay's answer carried no identifier. It is reported, never retried.
pub fn ack_missing(result: &BundleResult) -> (soft: Option<BotError>)
    ensures
        result.bundle_id is None ==> soft == Some(BotError::BundleAckMissing),
        result.bundle_id is Some ==> soft is None,
{
    match &result.bundle_id {
        Some(_) => None,
        None => Some(BotError::BundleAckMissing),
    }
}

} // verus!
