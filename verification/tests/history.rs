use ledger_gateway::address::AccountAddress;
use ledger_gateway::error::{AddressRole, GatewayError};
use ledger_gateway::history::{
    carries_marker, contains, latest_signature_request, marked_entries, signature_history_reply,
    signature_history_request, SignatureHistoryEntry,
};
use ledger_gateway::remote::{CommitmentLevel, RemoteCall, RemoteRequest, Upstream};

const OWNER: &str = "JEKNVnkbo3jma5nREBBJCDoXFVeKkD56V3xKrvRmWxFG";

fn entry(signature: &str, memo: Option<&str>) -> SignatureHistoryEntry {
    SignatureHistoryEntry {
        signature: String::from(signature),
        slot: 7,
        memo: memo.map(String::from),
        block_time: Some(1_700_000_000),
        error: None,
        confirmation: Some(CommitmentLevel::Finalized),
    }
}

fn history() -> Vec<SignatureHistoryEntry> {
    vec![
        entry("a", Some("[9] arrow-api:payment")),
        entry("b", None),
        entry("c", Some("something else")),
        entry("d", Some("arrow-api")),
        entry("e", Some("Arrow-Api")),
        entry("f", Some("arrow-ap")),
        entry("g", Some("the arrow-api")),
    ]
}

fn request(limit: Option<u32>) -> RemoteRequest {
    RemoteRequest {
        endpoint: String::from("https://api.devnet.solana.com"),
        commitment: CommitmentLevel::Confirmed,
        call: RemoteCall::SignaturesForAddress {
            address: AccountAddress::parse(OWNER, AddressRole::Wallet).unwrap(),
            limit,
        },
    }
}

#[test]
fn contains_finds_the_pattern_anywhere() {
    assert!(contains("arrow-api", "arrow-api"));
    assert!(contains("xarrow-api", "arrow-api"));
    assert!(contains("arrow-apix", "arrow-api"));
    assert!(contains("arrow-arrow-api", "arrow-api"));
    assert!(contains("é arrow-api é", "arrow-api"));
    assert!(contains("abc", ""));
    assert!(contains("", ""));
    assert!(contains("aab", "ab"));
}

#[test]
fn contains_misses_what_is_not_there() {
    assert!(!contains("", "arrow-api"));
    assert!(!contains("arrow-ap", "arrow-api"));
    assert!(!contains("rrow-api", "arrow-api"));
    assert!(!contains("arrow api", "arrow-api"));
    assert!(!contains("ARROW-API", "arrow-api"));
    assert!(!contains("arrow-", "arrow-api"));
    assert!(!contains("a-r-r-o-w-a-p-i", "arrow-api"));
    assert!(!contains("ab", "abc"));
}

#[test]
fn contains_agrees_with_the_standard_library() {
    let texts = ["", "a", "ab", "aba", "abab", "ééa", "arrow-api", "xx arrow-api xx", "aé"];
    for text in texts {
        for pattern in texts {
            assert_eq!(contains(text, pattern), text.contains(pattern));
        }
    }
}

#[test]
fn an_entry_without_a_memo_is_not_marked() {
    assert!(!carries_marker(&entry("a", None)));
    assert!(!carries_marker(&entry("a", Some(""))));
    assert!(carries_marker(&entry("a", Some("arrow-api"))));
    assert!(carries_marker(&entry("a", Some("[12] arrow-api transfer"))));
}

#[test]
fn marked_entries_keeps_the_order_of_the_node() {
    assert_eq!(
        marked_entries(history()),
        vec![
            entry("a", Some("[9] arrow-api:payment")),
            entry("d", Some("arrow-api")),
            entry("g", Some("the arrow-api")),
        ]
    );
    assert_eq!(marked_entries(vec![]), vec![]);
    assert_eq!(marked_entries(vec![entry("b", None)]), vec![]);
}

#[test]
fn marked_entries_keeps_every_field() {
    let kept = marked_entries(vec![SignatureHistoryEntry {
        signature: String::from("sig"),
        slot: 42,
        memo: Some(String::from("arrow-api")),
        block_time: None,
        error: Some(String::from("InsufficientFundsForFee")),
        confirmation: Some(CommitmentLevel::Confirmed),
    }]);
    assert_eq!(kept.len(), 1);
    assert_eq!(kept[0].signature, "sig");
    assert_eq!(kept[0].slot, 42);
    assert_eq!(kept[0].memo, Some(String::from("arrow-api")));
    assert_eq!(kept[0].block_time, None);
    assert_eq!(kept[0].error, Some(String::from("InsufficientFundsForFee")));
    assert_eq!(kept[0].confirmation, Some(CommitmentLevel::Confirmed));
}

#[test]
fn history_request_passes_the_limit_on() {
    assert_eq!(signature_history_request("devnet", OWNER, None), Ok(request(None)));
    assert_eq!(signature_history_request("devnet", OWNER, Some(25)), Ok(request(Some(25))));
    assert_eq!(signature_history_request("devnet", OWNER, Some(0)), Ok(request(Some(0))));
    assert_eq!(
        signature_history_request("devnet", "abc", None),
        Err(GatewayError::InvalidAddress(AddressRole::Wallet))
    );
}

#[test]
fn latest_signature_asks_for_one_entry() {
    assert_eq!(latest_signature_request("devnet", OWNER), Ok(request(Some(1))));
    assert_eq!(
        latest_signature_request("devnet", OWNER),
        signature_history_request("devnet", OWNER, Some(1))
    );
    assert_eq!(
        latest_signature_request("devnet", "abc"),
        Err(GatewayError::InvalidAddress(AddressRole::Wallet))
    );
}

#[test]
fn the_filter_does_not_depend_on_the_limit() {
    // One reply serves both variants: what the node returned for a request
    // with a limit of one is filtered as a whole history is.
    assert_eq!(
        signature_history_reply(Upstream::Returned(vec![entry("a", Some("arrow-api"))])),
        Ok(vec![entry("a", Some("arrow-api"))])
    );
    assert_eq!(
        signature_history_reply(Upstream::Returned(vec![entry("a", Some("other"))])),
        Ok(vec![])
    );
    assert_eq!(signature_history_reply(Upstream::Returned(history())), Ok(marked_entries(history())));
}

#[test]
fn a_failed_history_query_is_reported() {
    assert_eq!(signature_history_reply(Upstream::Failed), Err(GatewayError::RemoteQuery));
    assert_eq!(signature_history_reply(Upstream::Absent), Err(GatewayError::RemoteQuery));
}
