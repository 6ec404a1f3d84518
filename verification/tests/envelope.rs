use ledger_gateway::envelope::{envelope, error_message, success_status, Envelope, Operation};
use ledger_gateway::error::{AddressRole, GatewayError};

const OPERATIONS: [Operation; 8] = [
    Operation::Blockhash,
    Operation::NativeBalance,
    Operation::TokenBalance,
    Operation::Transaction,
    Operation::SignatureHistory,
    Operation::LatestSignature,
    Operation::Activation,
    Operation::RecommendedFee,
];

#[test]
fn every_operation_has_its_status_line() {
    assert_eq!(success_status(Operation::Blockhash), "Successful blockhash");
    assert_eq!(success_status(Operation::NativeBalance), "Successful solana balance request");
    assert_eq!(success_status(Operation::TokenBalance), "Successful balance request");
    assert_eq!(success_status(Operation::Transaction), "Successful transaction confirmed");
    assert_eq!(
        success_status(Operation::SignatureHistory),
        "Successful account signatures for arrow-api received"
    );
    assert_eq!(
        success_status(Operation::LatestSignature),
        "Successful latest signature for arrow-api received"
    );
    assert_eq!(
        success_status(Operation::Activation),
        "Token account activation query successful"
    );
    assert_eq!(
        success_status(Operation::RecommendedFee),
        "Successfully retrieved recommended priority fees"
    );
}

#[test]
fn a_failed_query_is_worded_by_operation() {
    let lines = [
        "Could not retrieve blockhash",
        "Could not retrieve balance",
        "Could not retrieve balance for token",
        "Could not retrieve transaction for signature",
        "Could not retrieve signatures for account",
        "Could not retrieve signatures for account",
        "Could not retrieve balance",
        "Failed to get fees",
    ];
    for (operation, line) in OPERATIONS.iter().zip(lines) {
        assert_eq!(error_message(*operation, GatewayError::RemoteQuery), line);
        assert_eq!(error_message(*operation, GatewayError::NotFound), line);
    }
}

#[test]
fn an_invalid_input_is_worded_by_its_role() {
    for operation in OPERATIONS {
        assert_eq!(
            error_message(operation, GatewayError::InvalidAddress(AddressRole::Wallet)),
            "Invalid wallet address"
        );
        assert_eq!(
            error_message(operation, GatewayError::InvalidAddress(AddressRole::TokenMint)),
            "Invalid token address"
        );
        assert_eq!(
            error_message(operation, GatewayError::InvalidAddress(AddressRole::ActivationMint)),
            "Invalid pubkey address for fee-des"
        );
        assert_eq!(
            error_message(operation, GatewayError::InvalidAddress(AddressRole::WatchedMint)),
            "Failed to parse USDC mint address"
        );
        assert_eq!(
            error_message(operation, GatewayError::InvalidSignature),
            "Invalid Signature String"
        );
        assert_eq!(error_message(operation, GatewayError::NoSamples), "No valid fees found");
        assert_eq!(
            error_message(operation, GatewayError::NoAssociatedAccount),
            "Could not derive associated token account"
        );
    }
}

#[test]
fn a_result_goes_out_with_the_status_line() {
    assert_eq!(
        envelope(Operation::NativeBalance, Ok(5u64)),
        Envelope::Success { data: 5u64, status: String::from("Successful solana balance request") }
    );
    assert_eq!(
        envelope(Operation::Blockhash, Ok(String::from("hash"))),
        Envelope::Success {
            data: String::from("hash"),
            status: String::from("Successful blockhash"),
        }
    );
}

#[test]
fn a_failure_goes_out_as_its_line_alone() {
    assert_eq!(
        envelope::<u64>(Operation::RecommendedFee, Err(GatewayError::NoSamples)),
        Envelope::Failure { error: String::from("No valid fees found") }
    );
    assert_eq!(
        envelope::<u64>(Operation::RecommendedFee, Err(GatewayError::RemoteQuery)),
        Envelope::Failure { error: String::from("Failed to get fees") }
    );
    assert_eq!(
        envelope::<u64>(Operation::Transaction, Err(GatewayError::NotFound)),
        Envelope::Failure { error: String::from("Could not retrieve transaction for signature") }
    );
}
