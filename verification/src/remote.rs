//! What the gateway asks of the remote ledger node, and what comes back.
//!
//! The gateway makes no remote call itself. It describes the call, the
//! caller makes it, and hands back what the node returned.

use vstd::prelude::*;
use vstd::string::*;

use crate::address::{AccountAddress, TransactionSignature};
use crate::error::GatewayError;

verus! {

/// How final a view of the ledger must be before the node returns it.
#[derive(Clone, Copy, Debug, PartialEq, Eq)]
pub enum CommitmentLevel {
    Processed,
    Confirmed,
    Finalized,
}

/// The form in which the node is asked to return a transaction.
#[derive(Clone, Copy, Debug, PartialEq, Eq)]
pub enum TransactionEncoding {
    Binary,
    Base58,
    Base64,
    Json,
    JsonParsed,
}

/// One call to the remote node.
#[derive(Debug, PartialEq, Eq)]
pub enum RemoteCall {
    LatestBlockhash,
    Balance { account: AccountAddress },
    TokenAccountBalance { account: AccountAddress },
    Transaction {
        signature: TransactionSignature,
        encoding: TransactionEncoding,
        max_supported_version: u8,
    },
    SignaturesForAddress { address: AccountAddress, limit: Option<u32> },
    RecentPrioritizationFees { programs: Vec<AccountAddress> },
}

/// A call, the node it goes to and the commitment level it is made at.
#[derive(Debug, PartialEq, Eq)]
pub struct RemoteRequest {
    pub endpoint: String,
    pub commitment: CommitmentLevel,
    pub call: RemoteCall,
}

/// What came of a remote call.
#[derive(Debug, PartialEq, Eq)]
pub enum Upstream<T> {
    /// The node returned a value.
    Returned(T),
    /// The node answered that it has no such entity.
    Absent,
    /// The node was not reached, or what it sent was a failure or could not
    /// be read.
    Failed,
}

/// The name under which the node knows a commitment level.
pub open spec fn commitment_parameter(level: CommitmentLevel) -> Seq<char> {
    match level {
        CommitmentLevel::Processed => "processed"@,
        CommitmentLevel::Confirmed => "confirmed"@,
        CommitmentLevel::Finalized => "finalized"@,
    }
}

/// The address of the public node of a network.
pub open spec fn endpoint_text(network: Seq<char>) -> Seq<char> {
    "https://api."@ + network + ".solana.com"@
}

/// Whether `request` goes to the public node of `network` at commitment
/// `level`.
pub open spec fn goes_to(request: RemoteRequest, network: Seq<char>, level: CommitmentLevel) -> bool {
    request.endpoint@ == endpoint_text(network) && request.commitment == level
}

/// The network whose fees are sampled.
pub open spec fn fee_network() -> Seq<char> {
    "mainnet-beta"@
}

/// What a call yields where an entity that the node does not know is a
/// failure of the query like any other.
pub open spec fn returned_or_failed<T>(upstream: Upstream<T>) -> Result<T, GatewayError> {
    match upstream {
        Upstream::Returned(value) => Ok(value),
        Upstream::Absent => Err(GatewayError::RemoteQuery),
        Upstream::Failed => Err(GatewayError::RemoteQuery),
    }
}

/// What a call yields where an entity that the node does not know is
/// reported as not found.
pub open spec fn returned_or_missing<T>(upstream: Upstream<T>) -> Result<T, GatewayError> {
    match upstream {
        Upstream::Returned(value) => Ok(value),
        Upstream::Absent => Err(GatewayError::NotFound),
        Upstream::Failed => Err(GatewayError::RemoteQuery),
    }
}

impl<T> Upstream<T> {
    /// The value that the node returned; anything else is a failed query.
    pub fn into_returned(self) -> (r: Result<T, GatewayError>)
        ensures
            r == returned_or_failed(self),
    {
        match self {
            Upstream::Returned(value) => Ok(value),
            Upstream::Absent => Err(GatewayError::RemoteQuery),
            Upstream::Failed => Err(GatewayError::RemoteQuery),
        }
    }

    /// The value that the node returned; an entity that it does not know is
    /// not found, and anything else is a failed query.
    pub fn into_found(self) -> (r: Result<T, GatewayError>)
        ensures
            r == returned_or_missing(self),
    {
        match self {
            Upstream::Returned(value) => Ok(value),
            Upstream::Absent => Err(GatewayError::NotFound),
            Upstream::Failed => Err(GatewayError::RemoteQuery),
        }
    }
}

/// Maps a commitment level to the parameter that is sent to the node.
pub fn resolve(level: CommitmentLevel) -> (parameter: &'static str)
    ensures
        parameter@ == commitment_parameter(level),
{
    match level {
        CommitmentLevel::Processed => "processed",
        CommitmentLevel::Confirmed => "confirmed",
        CommitmentLevel::Finalized => "finalized",
    }
}

/// The address of the public node of `network`.
pub fn endpoint(network: &str) -> (url: String)
    ensures
        url@ == endpoint_text(network@),
{
    let mut url = "https://api.".to_owned();
    url.append(network);
    url.append(".solana.com");
    url
}

} // verus!
