//! The failures that a gateway operation can report.

use vstd::prelude::*;

verus! {

/// The input of a request that an address was read from.
#[derive(Clone, Copy, Debug, PartialEq, Eq)]
pub enum AddressRole {
    /// The wallet (owner) address of a balance, history or activation request.
    Wallet,
    /// The token mint of a token-balance request.
    TokenMint,
    /// The token mint of an activation request.
    ActivationMint,
    /// The reference token mint on the fee watch-list.
    WatchedMint,
}

/// Why an operation produced no result.
#[derive(Clone, Copy, Debug, PartialEq, Eq)]
pub enum GatewayError {
    /// The text given in the named role is not an account address.
    InvalidAddress(AddressRole),
    /// The text is not a transaction signature.
    InvalidSignature,
    /// No associated token account can be derived for the owner and mint.
    NoAssociatedAccount,
    /// The remote node could not be reached, or answered with a failure.
    RemoteQuery,
    /// No recent prioritization fee above zero was reported.
    NoSamples,
    /// The remote node does not know the requested entity.
    NotFound,
}

} // verus!
