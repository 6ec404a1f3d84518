//! Transactions by signature, and the latest blockhash.

use vstd::prelude::*;

use crate::address::{parsed_signature, TransactionSignature};
use crate::error::GatewayError;
use crate::remote::{
    endpoint, goes_to, returned_or_failed, returned_or_missing, CommitmentLevel, RemoteCall,
    RemoteRequest, TransactionEncoding, Upstream,
};

verus! {

/// The highest transaction version that the gateway asks for.
pub const MAX_SUPPORTED_TRANSACTION_VERSION: u8 = 0;

/// The call that asks for the transaction with `signature` on `network`: at
/// the confirmed level, encoded as JSON, with no transaction version above
/// `MAX_SUPPORTED_TRANSACTION_VERSION`. No call is described for a text that
/// is not a signature.
pub fn transaction_request(network: &str, signature: &str) -> (r: Result<
    RemoteRequest,
    GatewayError,
>)
    ensures
        match r {
            Ok(request) => {
                &&& goes_to(request, network@, CommitmentLevel::Confirmed)
                &&& request.call matches RemoteCall::Transaction {
                    signature: asked,
                    encoding,
                    max_supported_version,
                }
                &&& parsed_signature(signature@) == Some(asked@)
                &&& encoding == TransactionEncoding::Json
                &&& max_supported_version == MAX_SUPPORTED_TRANSACTION_VERSION
            },
            Err(e) => parsed_signature(signature@) is None && e == GatewayError::InvalidSignature,
        },
{
    match TransactionSignature::parse(signature) {
        Ok(asked) => Ok(
            RemoteRequest {
                endpoint: endpoint(network),
                commitment: CommitmentLevel::Confirmed,
                call: RemoteCall::Transaction {
                    signature: asked,
                    encoding: TransactionEncoding::Json,
                    max_supported_version: MAX_SUPPORTED_TRANSACTION_VERSION,
                },
            },
        ),
        Err(e) => Err(e),
    }
}

/// The transaction record that the node returned, as it came. A transaction
/// that the node does not know is not found; any other failure is a failed
/// query.
pub fn transaction_reply<T>(upstream: Upstream<T>) -> (r: Result<T, GatewayError>)
    ensures
        r == returned_or_missing(upstream),
{
    upstream.into_found()
}

/// The call that asks the node of `network` for its latest blockhash, at
/// the finalized level.
pub fn blockhash_request(network: &str) -> (request: RemoteRequest)
    ensures
        goes_to(request, network@, CommitmentLevel::Finalized),
        request.call == RemoteCall::LatestBlockhash,
{
    RemoteRequest {
        endpoint: endpoint(network),
        commitment: CommitmentLevel::Finalized,
        call: RemoteCall::LatestBlockhash,
    }
}

/// The blockhash that the node returned, as it came.
pub fn blockhash_reply(upstream: Upstream<String>) -> (r: Result<String, GatewayError>)
    ensures
        r == returned_or_failed(upstream),
{
    upstream.into_returned()
}

} // verus!
