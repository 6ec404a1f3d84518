//! The recommended priority fee: a percentile of the recent prioritization
//! fees that were above zero.

use vstd::prelude::*;
use vstd::seq_lib::*;

use crate::address::{decoded_address, parsed_address, AccountAddress};
use crate::associated::{memo_program, memo_program_text, token_program, token_program_text};
use crate::error::{AddressRole, GatewayError};
use crate::remote::{
    endpoint, fee_network, goes_to, CommitmentLevel, RemoteCall, RemoteRequest, Upstream,
};

verus! {

/// The percentile of the recent fees that is recommended.
pub const FEE_PERCENTILE: usize = 50;

/// Fee units in one display unit of cost.
pub const FEE_SCALE: u64 = 100_000;

/// A recommended priority fee, with its cost in display units written as a
/// whole part and a remainder of `FEE_SCALE`-ths.
#[derive(Clone, Copy, Debug, PartialEq, Eq)]
pub struct FeeRecommendation {
    pub fee: u64,
    pub cost_units: u64,
    pub cost_remainder: u64,
}

/// The order that fees are ranked by.
pub open spec fn by_amount() -> spec_fn(u64, u64) -> bool {
    |a: u64, b: u64| a <= b
}

/// The samples that report a fee: a sample of zero says that no fee was
/// paid, and counts for nothing.
pub open spec fn paid(samples: Seq<u64>) -> Seq<u64> {
    samples.filter(|fee: u64| fee > 0)
}

/// No fee is followed by a smaller one.
pub open spec fn ascending(fees: Seq<u64>) -> bool {
    forall|i: int, j: int| 0 <= i < j < fees.len() ==> fees[i] <= fees[j]
}

/// The paid samples from the smallest to the largest.
pub open spec fn ranked(samples: Seq<u64>) -> Seq<u64> {
    paid(samples).sort_by(by_amount())
}

/// The position, counted from zero, of the recommended fee among `n` ranked
/// samples.
pub open spec fn percentile_rank(n: nat) -> nat {
    n * (FEE_PERCENTILE as nat) / 100
}

/// The fee that the samples recommend, where one of them is above zero.
pub open spec fn recommended_fee(samples: Seq<u64>) -> u64 {
    ranked(samples)[percentile_rank(ranked(samples).len()) as int]
}

/// The recommendation that goes with a fee.
pub open spec fn recommendation_of(fee: u64) -> FeeRecommendation {
    FeeRecommendation {
        fee,
        cost_units: fee / FEE_SCALE,
        cost_remainder: fee % FEE_SCALE,
    }
}

/// What the samples recommend: a fee if one of them is above zero.
pub open spec fn recommendation(samples: Seq<u64>) -> Result<FeeRecommendation, GatewayError> {
    if paid(samples).len() == 0 {
        Err(GatewayError::NoSamples)
    } else {
        Ok(recommendation_of(recommended_fee(samples)))
    }
}

proof fn lemma_by_amount_total()
    ensures
        vstd::relations::total_ordering(by_amount()),
{
}

proof fn lemma_ascending_is_sorted(fees: Seq<u64>)
    ensures
        ascending(fees) <==> vstd::relations::sorted_by(fees, by_amount()),
{
    if ascending(fees) {
        assert forall|i: int, j: int| 0 <= i < j < fees.len() implies #[trigger] by_amount()(
            fees[i],
            fees[j],
        ) by {}
    }
    if vstd::relations::sorted_by(fees, by_amount()) {
        assert forall|i: int, j: int| 0 <= i < j < fees.len() implies fees[i] <= fees[j] by {
            assert(by_amount()(fees[i], fees[j]));
        }
    }
}

/// The ranking of the samples is the one ascending sequence that holds each
/// paid sample as often as the samples do.
pub proof fn lemma_ranked_is(samples: Seq<u64>, fees: Seq<u64>)
    requires
        ascending(fees),
        fees.to_multiset() == paid(samples).to_multiset(),
    ensures
        ranked(samples) == fees,
{
    lemma_by_amount_total();
    lemma_ascending_is_sorted(fees);
    paid(samples).lemma_sort_by_ensures(by_amount());
    lemma_sorted_unique(ranked(samples), fees, by_amount());
}

/// The ranking holds as many fees as there are paid samples, in ascending
/// order, and each of them is above zero.
pub proof fn lemma_ranked_properties(samples: Seq<u64>)
    ensures
        ascending(ranked(samples)),
        ranked(samples).len() == paid(samples).len(),
        ranked(samples).to_multiset() == paid(samples).to_multiset(),
        forall|i: int| 0 <= i < ranked(samples).len() ==> #[trigger] ranked(samples)[i] > 0,
{
    lemma_by_amount_total();
    paid(samples).lemma_sort_by_ensures(by_amount());
    let r = ranked(samples);
    let p = paid(samples);
    lemma_ascending_is_sorted(r);
    r.to_multiset_ensures();
    p.to_multiset_ensures();
    assert forall|i: int| 0 <= i < r.len() implies #[trigger] r[i] > 0 by {
        assert(r.contains(r[i]));
        assert(p.to_multiset().count(r[i]) > 0);
        assert(p.contains(r[i]));
        let k = choose|k: int| 0 <= k < p.len() && p[k] == r[i];
        samples.lemma_filter_pred(|fee: u64| fee > 0, k);
    }
}

/// A fee that is recommended is above zero and is one of the samples: none
/// is made up.
pub proof fn lemma_recommended_fee_was_sampled(samples: Seq<u64>)
    requires
        paid(samples).len() > 0,
    ensures
        recommended_fee(samples) > 0,
        samples.contains(recommended_fee(samples)),
{
    lemma_ranked_properties(samples);
    let r = ranked(samples);
    let p = paid(samples);
    let fee = recommended_fee(samples);
    assert(fee == r[percentile_rank(r.len()) as int]);
    assert(r.contains(fee));
    r.to_multiset_ensures();
    p.to_multiset_ensures();
    assert(p.to_multiset().count(fee) > 0);
    assert(p.contains(fee));
    samples.lemma_filter_contains_rev(|fee: u64| fee > 0, fee);
}

/// The samples that are above zero, in the order in which they came.
pub fn paid_samples(samples: &Vec<u64>) -> (fees: Vec<u64>)
    ensures
        fees@ == paid(samples@),
{
    let mut fees: Vec<u64> = Vec::new();
    let mut i: usize = 0;
    proof {
        reveal(Seq::filter);
        assert(samples@.take(0) =~= Seq::<u64>::empty());
    }
    while i < samples.len()
        invariant
            i <= samples.len(),
            fees@ == paid(samples@.take(i as int)),
        decreases samples.len() - i,
    {
        let fee = samples[i];
        proof {
            assert(samples@.take(i as int + 1) =~= samples@.take(i as int).push(fee));
            samples@.take(i as int).lemma_filter_push(fee, |fee: u64| fee > 0);
        }
        if fee > 0 {
            fees.push(fee);
        }
        i += 1;
    }
    proof {
        assert(samples@.take(i as int) =~= samples@);
    }
    fees
}

/// The fees from the smallest to the largest.
pub fn rank_fees(fees: &Vec<u64>) -> (sorted: Vec<u64>)
    ensures
        ascending(sorted@),
        sorted@.to_multiset() == fees@.to_multiset(),
        sorted@ == fees@.sort_by(by_amount()),
{
    let mut sorted: Vec<u64> = Vec::new();
    let mut i: usize = 0;
    proof {
        assert(fees@.take(0) =~= Seq::<u64>::empty());
    }
    while i < fees.len()
        invariant
            i <= fees.len(),
            ascending(sorted@),
            sorted@.to_multiset() == fees@.take(i as int).to_multiset(),
        decreases fees.len() - i,
    {
        let fee = fees[i];
        let mut at: usize = 0;
        while at < sorted.len() && sorted[at] <= fee
            invariant
                at <= sorted.len(),
                forall|k: int| 0 <= k < at ==> sorted@[k] <= fee,
            decreases sorted.len() - at,
        {
            at += 1;
        }
        proof {
            to_multiset_insert(sorted@, at as int, fee);
            to_multiset_build(fees@.take(i as int), fee);
            assert(fees@.take(i as int + 1) =~= fees@.take(i as int).push(fee));
        }
        sorted.insert(at, fee);
        i += 1;
    }
    proof {
        assert(fees@.take(i as int) =~= fees@);
        lemma_by_amount_total();
        lemma_ascending_is_sorted(sorted@);
        fees@.lemma_sort_by_ensures(by_amount());
        lemma_sorted_unique(sorted@, fees@.sort_by(by_amount()), by_amount());
    }
    sorted
}

/// Recommends a priority fee from recent samples: the paid samples are
/// ranked, and the one at the percentile rank is the fee. Samples without a
/// paid one recommend nothing.
pub fn recommend(samples: &Vec<u64>) -> (r: Result<FeeRecommendation, GatewayError>)
    ensures
        r == recommendation(samples@),
{
    let fees = rank_fees(&paid_samples(samples));
    let n = fees.len();
    proof {
        lemma_ranked_properties(samples@);
    }
    if n == 0 {
        return Err(GatewayError::NoSamples);
    }
    let fee = fees[n / 2];
    Ok(FeeRecommendation { fee, cost_units: fee / FEE_SCALE, cost_remainder: fee % FEE_SCALE })
}

/// The published address of the token mint whose traffic is sampled beside
/// that of the token and memo programs.
pub open spec fn watched_mint_text() -> Seq<char> {
    "EPjFWdd5AufqSSqeM2qN1xzybapC8G4wEGGkZwyTDt1v"@
}

/// The programs whose recent fees are sampled: the token program, the memo
/// program and the watched mint, in this order.
pub open spec fn is_watch_list(programs: Seq<AccountAddress>) -> bool {
    &&& programs.len() == 3
    &&& decoded_address(token_program_text()) == Some(programs[0]@)
    &&& decoded_address(memo_program_text()) == Some(programs[1]@)
    &&& parsed_address(watched_mint_text()) == Some(programs[2]@)
}

/// The watch-list. It fails only if the watched mint's text is not read as
/// an address.
pub fn fee_watch_list() -> (r: Result<Vec<AccountAddress>, GatewayError>)
    ensures
        match r {
            Ok(programs) => is_watch_list(programs@),
            Err(e) => {
                &&& parsed_address(watched_mint_text()) is None
                &&& e == GatewayError::InvalidAddress(AddressRole::WatchedMint)
            },
        },
{
    let mint = match AccountAddress::parse(
        "EPjFWdd5AufqSSqeM2qN1xzybapC8G4wEGGkZwyTDt1v",
        AddressRole::WatchedMint,
    ) {
        Ok(mint) => mint,
        Err(e) => return Err(e),
    };
    let mut programs: Vec<AccountAddress> = Vec::new();
    programs.push(token_program());
    programs.push(memo_program());
    programs.push(mint);
    Ok(programs)
}

/// The call that asks the main network's node for the recent prioritization
/// fees of the programs on the watch-list.
pub fn recommended_fee_request() -> (r: Result<RemoteRequest, GatewayError>)
    ensures
        match r {
            Ok(request) => {
                &&& goes_to(request, fee_network(), CommitmentLevel::Finalized)
                &&& request.call matches RemoteCall::RecentPrioritizationFees { programs }
                &&& is_watch_list(programs@)
            },
            Err(e) => {
                &&& parsed_address(watched_mint_text()) is None
                &&& e == GatewayError::InvalidAddress(AddressRole::WatchedMint)
            },
        },
{
    match fee_watch_list() {
        Ok(programs) => Ok(
            RemoteRequest {
                endpoint: endpoint("mainnet-beta"),
                commitment: CommitmentLevel::Finalized,
                call: RemoteCall::RecentPrioritizationFees { programs },
            },
        ),
        Err(e) => Err(e),
    }
}

/// The recommendation that follows from the samples that the node returned.
/// A node that gives no samples is a failed query, and samples without a
/// paid one recommend nothing: no fee of zero is made up for either.
pub fn recommended_fee_reply(upstream: Upstream<Vec<u64>>) -> (r: Result<
    FeeRecommendation,
    GatewayError,
>)
    ensures
        match upstream {
            Upstream::Returned(samples) => r == recommendation(samples@),
            _ => r == Err::<FeeRecommendation, GatewayError>(GatewayError::RemoteQuery),
        },
{
    match upstream {
        Upstream::Returned(samples) => recommend(&samples),
        _ => Err(GatewayError::RemoteQuery),
    }
}

} // verus!
