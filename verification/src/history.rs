//! The signature history of an address, narrowed to the entries that carry
//! the memo marker of this application.

use vstd::prelude::*;

use crate::address::{parsed_address, AccountAddress};
use crate::error::{AddressRole, GatewayError};
use crate::remote::{endpoint, goes_to, CommitmentLevel, RemoteCall, RemoteRequest, Upstream};

verus! {

/// One transaction in the history of an address, as the node reports it.
#[derive(Debug, PartialEq, Eq)]
pub struct SignatureHistoryEntry {
    /// The signature of the transaction, in base 58.
    pub signature: String,
    /// The slot that holds the transaction.
    pub slot: u64,
    /// The memo that the transaction carries, if it carries one.
    pub memo: Option<String>,
    /// When the block was produced, in seconds since the epoch, if known.
    pub block_time: Option<i64>,
    /// The error with which the transaction failed, if it failed.
    pub error: Option<String>,
    /// How final the transaction is, if the node says so.
    pub confirmation: Option<CommitmentLevel>,
}

/// The text that marks the memos of this application's own transactions.
pub open spec fn memo_marker() -> Seq<char> {
    "arrow-api"@
}

/// `pattern` stands in `text` from position `at` on.
pub open spec fn occurs_at(text: Seq<char>, pattern: Seq<char>, at: int) -> bool {
    &&& 0 <= at
    &&& at + pattern.len() <= text.len()
    &&& text.subrange(at, at + pattern.len()) == pattern
}

/// `pattern` stands somewhere in `text`.
pub open spec fn contains_text(text: Seq<char>, pattern: Seq<char>) -> bool {
    exists|at: int| occurs_at(text, pattern, at)
}

/// The entry has a memo, and the memo contains the marker.
pub open spec fn is_marked(entry: SignatureHistoryEntry) -> bool {
    entry.memo matches Some(memo) && contains_text(memo@, memo_marker())
}

/// The marked entries, in the order in which they came.
pub open spec fn marked(entries: Seq<SignatureHistoryEntry>) -> Seq<SignatureHistoryEntry> {
    entries.filter(|entry: SignatureHistoryEntry| is_marked(entry))
}

fn chars_of(text: &str) -> (chars: Vec<char>)
    ensures
        chars@ == text@,
{
    let mut chars: Vec<char> = Vec::new();
    for c in it: text.chars()
        invariant
            it.seq() == text@,
            chars@ == text@.take(it.index() as int),
    {
        proof {
            assert(text@.take(it.index() + 1) =~= text@.take(it.index() as int).push(c));
        }
        chars.push(c);
    }
    proof {
        assert(text@.take(text@.len() as int) =~= text@);
    }
    chars
}

fn found_at(text: &Vec<char>, pattern: &Vec<char>, at: usize) -> (r: bool)
    requires
        at + pattern.len() <= text.len(),
    ensures
        r == occurs_at(text@, pattern@, at as int),
{
    let mut k: usize = 0;
    while k < pattern.len()
        invariant
            k <= pattern.len(),
            at + pattern.len() <= text.len(),
            forall|j: int| 0 <= j < k ==> text@[at + j] == pattern@[j],
        decreases pattern.len() - k,
    {
        if text[at + k] != pattern[k] {
            proof {
                assert(text@.subrange(at as int, at + pattern.len())[k as int] == text@[at + k]);
            }
            return false;
        }
        k += 1;
    }
    proof {
        assert(text@.subrange(at as int, at + pattern.len()) =~= pattern@);
    }
    true
}

/// Whether `pattern` stands somewhere in `text`.
pub fn contains(text: &str, pattern: &str) -> (r: bool)
    ensures
        r == contains_text(text@, pattern@),
{
    let text_chars = chars_of(text);
    let pattern_chars = chars_of(pattern);
    if pattern_chars.len() > text_chars.len() {
        return false;
    }
    let last = text_chars.len() - pattern_chars.len();
    let mut at: usize = 0;
    loop
        invariant
            at <= last,
            last == text_chars.len() - pattern_chars.len(),
            text_chars@ == text@,
            pattern_chars@ == pattern@,
            forall|before: int| 0 <= before < at ==> !occurs_at(text@, pattern@, before),
        decreases last - at,
    {
        if found_at(&text_chars, &pattern_chars, at) {
            return true;
        }
        if at == last {
            return false;
        }
        at += 1;
    }
}

/// Whether the entry has a memo that contains the marker.
pub fn carries_marker(entry: &SignatureHistoryEntry) -> (r: bool)
    ensures
        r == is_marked(*entry),
{
    match &entry.memo {
        Some(memo) => contains(memo.as_str(), "arrow-api"),
        None => false,
    }
}

/// Keeps the marked entries and drops the others. The order is left as the
/// node gave it.
pub fn marked_entries(entries: Vec<SignatureHistoryEntry>) -> (kept: Vec<SignatureHistoryEntry>)
    ensures
        kept@ == marked(entries@),
{
    let ghost all = entries@;
    let mut kept: Vec<SignatureHistoryEntry> = Vec::new();
    proof {
        reveal(Seq::filter);
        assert(all.take(0) =~= Seq::<SignatureHistoryEntry>::empty());
    }
    for entry in it: entries
        invariant
            it.seq() == all,
            kept@ == marked(all.take(it.index() as int)),
    {
        proof {
            assert(all.take(it.index() + 1) =~= all.take(it.index() as int).push(entry));
            all.take(it.index() as int).lemma_filter_push(
                entry,
                |entry: SignatureHistoryEntry| is_marked(entry),
            );
        }
        if carries_marker(&entry) {
            kept.push(entry);
        }
    }
    proof {
        assert(all.take(all.len() as int) =~= all);
    }
    kept
}

/// What a request for the history of `address` asks of the node: the
/// signatures for that address at the confirmed level, at most `limit` of
/// them where a limit is given.
pub open spec fn describes_history(
    request: RemoteRequest,
    network: Seq<char>,
    address: Seq<char>,
    limit: Option<u32>,
) -> bool {
    &&& goes_to(request, network, CommitmentLevel::Confirmed)
    &&& request.call matches RemoteCall::SignaturesForAddress { address: account, limit: asked }
    &&& parsed_address(address) == Some(account@)
    &&& asked == limit
}

/// The call that asks for the signature history of `address` on `network`,
/// at the confirmed level, with at most `limit` entries where a limit is
/// given. No call is described for a text that is not an address.
pub fn signature_history_request(network: &str, address: &str, limit: Option<u32>) -> (r: Result<
    RemoteRequest,
    GatewayError,
>)
    ensures
        match r {
            Ok(request) => describes_history(request, network@, address@, limit),
            Err(e) => {
                &&& parsed_address(address@) is None
                &&& e == GatewayError::InvalidAddress(AddressRole::Wallet)
            },
        },
{
    match AccountAddress::parse(address, AddressRole::Wallet) {
        Ok(account) => Ok(
            RemoteRequest {
                endpoint: endpoint(network),
                commitment: CommitmentLevel::Confirmed,
                call: RemoteCall::SignaturesForAddress { address: account, limit },
            },
        ),
        Err(e) => Err(e),
    }
}

/// The call that asks for the latest signature of `address` on `network`:
/// the history request with a limit of one entry.
pub fn latest_signature_request(network: &str, address: &str) -> (r: Result<
    RemoteRequest,
    GatewayError,
>)
    ensures
        match r {
            Ok(request) => describes_history(request, network@, address@, Some(1u32)),
            Err(e) => {
                &&& parsed_address(address@) is None
                &&& e == GatewayError::InvalidAddress(AddressRole::Wallet)
            },
        },
{
    signature_history_request(network, address, Some(1))
}

/// A limit bounds what is asked of the node and changes nothing else: two
/// history requests for one address that differ in their limit go to the
/// same node at the same level and ask for the same address, each with its
/// own limit.
pub proof fn lemma_limit_only_bounds(
    first: RemoteRequest,
    second: RemoteRequest,
    network: Seq<char>,
    address: Seq<char>,
    first_limit: Option<u32>,
    second_limit: Option<u32>,
)
    requires
        describes_history(first, network, address, first_limit),
        describes_history(second, network, address, second_limit),
    ensures
        first.endpoint@ == second.endpoint@,
        first.commitment == second.commitment,
        first.call->SignaturesForAddress_address@ == second.call->SignaturesForAddress_address@,
        first.call->SignaturesForAddress_limit == first_limit,
        second.call->SignaturesForAddress_limit == second_limit,
{
}

/// The marked entries of the history that the node returned, whatever the
/// limit of the request was.
pub fn signature_history_reply(upstream: Upstream<Vec<SignatureHistoryEntry>>) -> (r: Result<
    Vec<SignatureHistoryEntry>,
    GatewayError,
>)
    ensures
        match upstream {
            Upstream::Returned(entries) => r matches Ok(kept) && kept@ == marked(entries@),
            _ => r == Err::<Vec<SignatureHistoryEntry>, GatewayError>(GatewayError::RemoteQuery),
        },
{
    match upstream {
        Upstream::Returned(entries) => Ok(marked_entries(entries)),
        _ => Err(GatewayError::RemoteQuery),
    }
}

} // verus!
