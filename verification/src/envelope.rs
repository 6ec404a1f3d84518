//! The envelope in which every operation answers: its result with a status
//! line, or a single line that says what went wrong.

use vstd::prelude::*;

use crate::error::{AddressRole, GatewayError};

verus! {

/// The operations that the gateway offers.
#[derive(Clone, Copy, Debug, PartialEq, Eq)]
pub enum Operation {
    Blockhash,
    NativeBalance,
    TokenBalance,
    Transaction,
    SignatureHistory,
    LatestSignature,
    Activation,
    RecommendedFee,
}

/// The answer to one request.
#[derive(Debug, PartialEq, Eq)]
pub enum Envelope<T> {
    Success { data: T, status: String },
    Failure { error: String },
}

/// The status line of an operation that succeeded.
pub open spec fn status_text(operation: Operation) -> Seq<char> {
    match operation {
        Operation::Blockhash => "Successful blockhash"@,
        Operation::NativeBalance => "Successful solana balance request"@,
        Operation::TokenBalance => "Successful balance request"@,
        Operation::Transaction => "Successful transaction confirmed"@,
        Operation::SignatureHistory => "Successful account signatures for arrow-api received"@,
        Operation::LatestSignature => "Successful latest signature for arrow-api received"@,
        Operation::Activation => "Token account activation query successful"@,
        Operation::RecommendedFee => "Successfully retrieved recommended priority fees"@,
    }
}

/// The line that tells the caller of `operation` that the node gave no
/// result.
pub open spec fn remote_failure_text(operation: Operation) -> Seq<char> {
    match operation {
        Operation::Blockhash => "Could not retrieve blockhash"@,
        Operation::NativeBalance => "Could not retrieve balance"@,
        Operation::TokenBalance => "Could not retrieve balance for token"@,
        Operation::Transaction => "Could not retrieve transaction for signature"@,
        Operation::SignatureHistory => "Could not retrieve signatures for account"@,
        Operation::LatestSignature => "Could not retrieve signatures for account"@,
        Operation::Activation => "Could not retrieve balance"@,
        Operation::RecommendedFee => "Failed to get fees"@,
    }
}

/// The line that tells the caller of `operation` what went wrong.
pub open spec fn error_text(operation: Operation, error: GatewayError) -> Seq<char> {
    match error {
        GatewayError::InvalidAddress(AddressRole::Wallet) => "Invalid wallet address"@,
        GatewayError::InvalidAddress(AddressRole::TokenMint) => "Invalid token address"@,
        GatewayError::InvalidAddress(AddressRole::ActivationMint) =>
            "Invalid pubkey address for fee-des"@,
        GatewayError::InvalidAddress(AddressRole::WatchedMint) =>
            "Failed to parse USDC mint address"@,
        GatewayError::InvalidSignature => "Invalid Signature String"@,
        GatewayError::NoAssociatedAccount => "Could not derive associated token account"@,
        GatewayError::RemoteQuery => remote_failure_text(operation),
        GatewayError::NotFound => remote_failure_text(operation),
        GatewayError::NoSamples => "No valid fees found"@,
    }
}

/// The status line of `operation`.
pub fn success_status(operation: Operation) -> (line: &'static str)
    ensures
        line@ == status_text(operation),
{
    match operation {
        Operation::Blockhash => "Successful blockhash",
        Operation::NativeBalance => "Successful solana balance request",
        Operation::TokenBalance => "Successful balance request",
        Operation::Transaction => "Successful transaction confirmed",
        Operation::SignatureHistory => "Successful account signatures for arrow-api received",
        Operation::LatestSignature => "Successful latest signature for arrow-api received",
        Operation::Activation => "Token account activation query successful",
        Operation::RecommendedFee => "Successfully retrieved recommended priority fees",
    }
}

fn remote_failure_message(operation: Operation) -> (line: &'static str)
    ensures
        line@ == remote_failure_text(operation),
{
    match operation {
        Operation::Blockhash => "Could not retrieve blockhash",
        Operation::NativeBalance => "Could not retrieve balance",
        Operation::TokenBalance => "Could not retrieve balance for token",
        Operation::Transaction => "Could not retrieve transaction for signature",
        Operation::SignatureHistory => "Could not retrieve signatures for account",
        Operation::LatestSignature => "Could not retrieve signatures for account",
        Operation::Activation => "Could not retrieve balance",
        Operation::RecommendedFee => "Failed to get fees",
    }
}

/// The line that tells the caller of `operation` what went wrong.
pub fn error_message(operation: Operation, error: GatewayError) -> (line: &'static str)
    ensures
        line@ == error_text(operation, error),
{
    match error {
        GatewayError::InvalidAddress(AddressRole::Wallet) => "Invalid wallet address",
        GatewayError::InvalidAddress(AddressRole::TokenMint) => "Invalid token address",
        GatewayError::InvalidAddress(AddressRole::ActivationMint) =>
            "Invalid pubkey address for fee-des",
        GatewayError::InvalidAddress(AddressRole::WatchedMint) =>
            "Failed to parse USDC mint address",
        GatewayError::InvalidSignature => "Invalid Signature String",
        GatewayError::NoAssociatedAccount => "Could not derive associated token account",
        GatewayError::RemoteQuery => remote_failure_message(operation),
        GatewayError::NotFound => remote_failure_message(operation),
        GatewayError::NoSamples => "No valid fees found",
    }
}

/// Wraps the outcome of `operation`: a result goes out as data beside the
/// operation's status line, a failure as its line alone. Nothing of a
/// result is kept where the operation failed.
pub fn envelope<T>(operation: Operation, outcome: Result<T, GatewayError>) -> (e: Envelope<T>)
    ensures
        match outcome {
            Ok(value) => e matches Envelope::Success { data, status } && data == value && status@
                == status_text(operation),
            Err(error) => e matches Envelope::Failure { error: line } && line@ == error_text(
                operation,
                error,
            ),
        },
{
    match outcome {
        Ok(data) => Envelope::Success { data, status: success_status(operation).to_owned() },
        Err(error) => Envelope::Failure { error: error_message(operation, error).to_owned() },
    }
}

} // verus!
