//! Native and token balances, and whether a token account is activated.

use vstd::prelude::*;

use crate::address::{parsed_address, AccountAddress};
use crate::associated::associated_address;
use crate::error::{AddressRole, GatewayError};
use crate::remote::{
    endpoint, goes_to, returned_or_failed, CommitmentLevel, RemoteCall, RemoteRequest, Upstream,
};

verus! {

/// The least native balance, in the ledger's base unit, that keeps a token
/// account exempt from rent.
pub const RENT_EXEMPT_MINIMUM: u64 = 2_039_280;

/// A token balance as the node reports it: the amount in the token's
/// smallest unit, the same amount written with its decimal point, and the
/// number of decimals.
#[derive(Debug, PartialEq, Eq)]
pub struct TokenBalance {
    pub raw_amount: String,
    pub display_amount: String,
    pub decimals: u8,
}

/// The native balance of a token account, and whether that activates it.
#[derive(Clone, Copy, Debug, PartialEq, Eq)]
pub struct Activation {
    pub balance: u64,
    pub activated: bool,
}

/// A balance activates a token account exactly if it reaches the
/// rent-exempt minimum.
pub open spec fn activates(balance: u64) -> bool {
    balance >= RENT_EXEMPT_MINIMUM
}

/// The token account that the texts of an owner and a mint lead to. The
/// owner is read first; a mint that cannot be read is reported in the role
/// in which it was given.
pub open spec fn token_account(owner: Seq<char>, mint: Seq<char>, mint_role: AddressRole) -> Result<
    Seq<u8>,
    GatewayError,
> {
    match parsed_address(owner) {
        None => Err(GatewayError::InvalidAddress(AddressRole::Wallet)),
        Some(owner_bytes) => match parsed_address(mint) {
            None => Err(GatewayError::InvalidAddress(mint_role)),
            Some(mint_bytes) => match associated_address(owner_bytes, mint_bytes) {
                None => Err(GatewayError::NoAssociatedAccount),
                Some(account) => Ok(account),
            },
        },
    }
}

/// Reads the owner and the mint and derives the owner's account for the
/// token.
pub fn resolve_token_account(owner: &str, mint: &str, mint_role: AddressRole) -> (r: Result<
    AccountAddress,
    GatewayError,
>)
    ensures
        match r {
            Ok(account) => token_account(owner@, mint@, mint_role) == Ok::<Seq<u8>, GatewayError>(
                account@,
            ),
            Err(e) => token_account(owner@, mint@, mint_role) == Err::<Seq<u8>, GatewayError>(e),
        },
{
    let owner_address = match AccountAddress::parse(owner, AddressRole::Wallet) {
        Ok(address) => address,
        Err(e) => return Err(e),
    };
    let mint_address = match AccountAddress::parse(mint, mint_role) {
        Ok(address) => address,
        Err(e) => return Err(e),
    };
    match crate::associated::derive(&owner_address, &mint_address) {
        Some(account) => Ok(account),
        None => Err(GatewayError::NoAssociatedAccount),
    }
}

/// The call that asks for the native balance of `address` on `network` at
/// commitment `level`. No call is described for a text that is not an
/// address.
pub fn native_balance_request(network: &str, address: &str, level: CommitmentLevel) -> (r: Result<
    RemoteRequest,
    GatewayError,
>)
    ensures
        match r {
            Ok(request) => {
                &&& goes_to(request, network@, level)
                &&& request.call matches RemoteCall::Balance { account }
                &&& parsed_address(address@) == Some(account@)
            },
            Err(e) => {
                &&& parsed_address(address@) is None
                &&& e == GatewayError::InvalidAddress(AddressRole::Wallet)
            },
        },
{
    match AccountAddress::parse(address, AddressRole::Wallet) {
        Ok(account) => Ok(
            RemoteRequest {
                endpoint: endpoint(network),
                commitment: level,
                call: RemoteCall::Balance { account },
            },
        ),
        Err(e) => Err(e),
    }
}

/// The native balance that the node returned. A node that fails or knows
/// nothing of the account gives a failed query.
pub fn native_balance_reply(upstream: Upstream<u64>) -> (r: Result<u64, GatewayError>)
    ensures
        r == returned_or_failed(upstream),
{
    upstream.into_returned()
}

/// The call that asks for the balance that `owner` holds of the token of
/// `mint`, on `network` at commitment `level`: the balance of the owner's
/// associated token account.
pub fn token_balance_request(network: &str, owner: &str, mint: &str, level: CommitmentLevel) -> (r:
    Result<RemoteRequest, GatewayError>)
    ensures
        match r {
            Ok(request) => {
                &&& goes_to(request, network@, level)
                &&& request.call matches RemoteCall::TokenAccountBalance { account }
                &&& token_account(owner@, mint@, AddressRole::TokenMint) == Ok::<
                    Seq<u8>,
                    GatewayError,
                >(account@)
            },
            Err(e) => token_account(owner@, mint@, AddressRole::TokenMint) == Err::<
                Seq<u8>,
                GatewayError,
            >(e),
        },
{
    match resolve_token_account(owner, mint, AddressRole::TokenMint) {
        Ok(account) => Ok(
            RemoteRequest {
                endpoint: endpoint(network),
                commitment: level,
                call: RemoteCall::TokenAccountBalance { account },
            },
        ),
        Err(e) => Err(e),
    }
}

/// The token balance that the node returned. Where the associated account
/// does not exist on the ledger the query has failed: no balance of zero is
/// made up for it.
pub fn token_balance_reply(upstream: Upstream<TokenBalance>) -> (r: Result<
    TokenBalance,
    GatewayError,
>)
    ensures
        r == returned_or_failed(upstream),
{
    upstream.into_returned()
}

/// The call that asks, on `network`, for the native balance of the account
/// that `owner` has for the token of `mint`, at the confirmed level.
pub fn activation_request(network: &str, owner: &str, mint: &str) -> (r: Result<
    RemoteRequest,
    GatewayError,
>)
    ensures
        match r {
            Ok(request) => {
                &&& goes_to(request, network@, CommitmentLevel::Confirmed)
                &&& request.call matches RemoteCall::Balance { account }
                &&& token_account(owner@, mint@, AddressRole::ActivationMint) == Ok::<
                    Seq<u8>,
                    GatewayError,
                >(account@)
            },
            Err(e) => token_account(owner@, mint@, AddressRole::ActivationMint) == Err::<
                Seq<u8>,
                GatewayError,
            >(e),
        },
{
    match resolve_token_account(owner, mint, AddressRole::ActivationMint) {
        Ok(account) => Ok(
            RemoteRequest {
                endpoint: endpoint(network),
                commitment: CommitmentLevel::Confirmed,
                call: RemoteCall::Balance { account },
            },
        ),
        Err(e) => Err(e),
    }
}

/// Whether a token account with this native balance is activated.
pub fn is_account_activated(balance: u64) -> (activation: Activation)
    ensures
        activation.balance == balance,
        activation.activated == activates(balance),
{
    Activation { balance, activated: balance >= RENT_EXEMPT_MINIMUM }
}

/// The activation that follows from the native balance that the node
/// returned for a token account.
pub fn activation_reply(upstream: Upstream<u64>) -> (r: Result<Activation, GatewayError>)
    ensures
        match upstream {
            Upstream::Returned(balance) => r == Ok::<Activation, GatewayError>(
                (Activation { balance, activated: activates(balance) }),
            ),
            _ => r == Err::<Activation, GatewayError>(GatewayError::RemoteQuery),
        },
{
    match upstream {
        Upstream::Returned(balance) => Ok(is_account_activated(balance)),
        _ => Err(GatewayError::RemoteQuery),
    }
}

} // verus!
