//! Aggregates over the ledger's record sequences: the total balance across
//! campaigns, per-campaign donation and settlement sums, and the
//! per-campaign filters behind the query operations.

use vstd::prelude::*;

use crate::records::Animal;
use crate::records::Donation;
use crate::records::PaymentRequest;

verus! {

/// Sum of the current balances of a sequence of campaigns.
pub open spec fn sum_raised(animals: Seq<Animal>) -> int
    decreases animals.len(),
{
    if animals.len() == 0 {
        0
    } else {
        sum_raised(animals.drop_last()) + animals.last().total_raised
    }
}

/// What one donation contributes to the donation sum of campaign `aid`.
pub open spec fn donation_contrib(d: Donation, aid: u32) -> int {
    if d.animal_id == aid {
        d.amount as int
    } else {
        0
    }
}

/// Sum of all donation amounts credited to campaign `aid`.
pub open spec fn sum_donated_for(donations: Seq<Donation>, aid: u32) -> int
    decreases donations.len(),
{
    if donations.len() == 0 {
        0
    } else {
        sum_donated_for(donations.drop_last(), aid) + donation_contrib(donations.last(), aid)
    }
}

/// What one payment request contributes to the settled sum of campaign
/// `aid`: its amount once paid, nothing before.
pub open spec fn settled_contrib(r: PaymentRequest, aid: u32) -> int {
    if r.animal_id == aid && r.is_paid {
        r.amount as int
    } else {
        0
    }
}

/// Sum of the amounts of all settled payment requests drawn against
/// campaign `aid`.
pub open spec fn sum_settled_for(requests: Seq<PaymentRequest>, aid: u32) -> int
    decreases requests.len(),
{
    if requests.len() == 0 {
        0
    } else {
        sum_settled_for(requests.drop_last(), aid) + settled_contrib(requests.last(), aid)
    }
}

/// How many of a sequence of campaigns are active.
pub open spec fn count_active(animals: Seq<Animal>) -> int
    decreases animals.len(),
{
    if animals.len() == 0 {
        0
    } else {
        count_active(animals.drop_last()) + if animals.last().is_active {
            1int
        } else {
            0int
        }
    }
}

/// Stepping an active-count past position `i` adds one exactly when that
/// campaign is active.
pub proof fn lemma_count_active_prefix_step(animals: Seq<Animal>, i: int)
    requires
        0 <= i < animals.len(),
    ensures
        count_active(animals.subrange(0, i + 1)) == count_active(animals.subrange(0, i)) + if animals[i].is_active {
            1int
        } else {
            0int
        },
{
    assert(animals.subrange(0, i + 1).drop_last() =~= animals.subrange(0, i));
}

/// The donations credited to campaign `aid`, in recording order.
pub open spec fn donations_for(donations: Seq<Donation>, aid: u32) -> Seq<Donation>
    decreases donations.len(),
{
    if donations.len() == 0 {
        Seq::empty()
    } else if donations.last().animal_id == aid {
        donations_for(donations.drop_last(), aid).push(donations.last())
    } else {
        donations_for(donations.drop_last(), aid)
    }
}

/// The payment requests drawn against campaign `aid`, in creation order.
pub open spec fn requests_for(requests: Seq<PaymentRequest>, aid: u32) -> Seq<PaymentRequest>
    decreases requests.len(),
{
    if requests.len() == 0 {
        Seq::empty()
    } else if requests.last().animal_id == aid {
        requests_for(requests.drop_last(), aid).push(requests.last())
    } else {
        requests_for(requests.drop_last(), aid)
    }
}

/// Appending a campaign adds its balance to the total.
pub proof fn lemma_sum_raised_push(animals: Seq<Animal>, a: Animal)
    ensures
        sum_raised(animals.push(a)) == sum_raised(animals) + a.total_raised,
{
    assert(animals.push(a).drop_last() =~= animals);
}

/// Replacing one campaign shifts the total by the difference of the two
/// balances.
pub proof fn lemma_sum_raised_update(animals: Seq<Animal>, i: int, a: Animal)
    requires
        0 <= i < animals.len(),
    ensures
        sum_raised(animals.update(i, a)) == sum_raised(animals) - animals[i].total_raised
            + a.total_raised,
    decreases animals.len(),
{
    if i == animals.len() - 1 {
        assert(animals.update(i, a).drop_last() =~= animals.drop_last());
    } else {
        assert(animals.update(i, a).drop_last() =~= animals.drop_last().update(i, a));
        lemma_sum_raised_update(animals.drop_last(), i, a);
    }
}

/// With every balance non-negative, the total is non-negative.
pub proof fn lemma_sum_raised_nonneg(animals: Seq<Animal>)
    requires
        forall|i: int| 0 <= i < animals.len() ==> (#[trigger] animals[i]).total_raised >= 0,
    ensures
        sum_raised(animals) >= 0,
    decreases animals.len(),
{
    if animals.len() > 0 {
        lemma_sum_raised_nonneg(animals.drop_last());
    }
}

/// With every balance non-negative, each single balance is at most the
/// total.
pub proof fn lemma_sum_raised_element_bound(animals: Seq<Animal>, i: int)
    requires
        forall|j: int| 0 <= j < animals.len() ==> (#[trigger] animals[j]).total_raised >= 0,
        0 <= i < animals.len(),
    ensures
        animals[i].total_raised <= sum_raised(animals),
    decreases animals.len(),
{
    if i == animals.len() - 1 {
        lemma_sum_raised_nonneg(animals.drop_last());
    } else {
        lemma_sum_raised_element_bound(animals.drop_last(), i);
    }
}

/// With every balance non-negative, each prefix sum lies between zero and
/// the full total.
pub proof fn lemma_sum_raised_prefix_bound(animals: Seq<Animal>, i: int)
    requires
        forall|j: int| 0 <= j < animals.len() ==> (#[trigger] animals[j]).total_raised >= 0,
        0 <= i <= animals.len(),
    ensures
        0 <= sum_raised(animals.subrange(0, i)),
        sum_raised(animals.subrange(0, i)) <= sum_raised(animals),
    decreases animals.len() - i,
{
    assert(forall|j: int|
        0 <= j < animals.subrange(0, i).len() ==> (#[trigger] animals.subrange(0, i)[j]).total_raised
            >= 0);
    lemma_sum_raised_nonneg(animals.subrange(0, i));
    if i == animals.len() {
        assert(animals.subrange(0, i) =~= animals);
    } else {
        assert(animals.subrange(0, i + 1).drop_last() =~= animals.subrange(0, i));
        lemma_sum_raised_prefix_bound(animals, i + 1);
    }
}

/// Stepping a prefix sum past position `i` adds that campaign's balance.
pub proof fn lemma_sum_raised_prefix_step(animals: Seq<Animal>, i: int)
    requires
        0 <= i < animals.len(),
    ensures
        sum_raised(animals.subrange(0, i + 1)) == sum_raised(animals.subrange(0, i))
            + animals[i].total_raised,
{
    assert(animals.subrange(0, i + 1).drop_last() =~= animals.subrange(0, i));
}

/// Appending a donation adds its contribution to a campaign's donation sum.
pub proof fn lemma_sum_donated_push(donations: Seq<Donation>, d: Donation, aid: u32)
    ensures
        sum_donated_for(donations.push(d), aid) == sum_donated_for(donations, aid)
            + donation_contrib(d, aid),
{
    assert(donations.push(d).drop_last() =~= donations);
}

/// A campaign no donation names has a donation sum of zero.
pub proof fn lemma_sum_donated_absent(donations: Seq<Donation>, aid: u32)
    requires
        forall|i: int| 0 <= i < donations.len() ==> (#[trigger] donations[i]).animal_id != aid,
    ensures
        sum_donated_for(donations, aid) == 0,
    decreases donations.len(),
{
    if donations.len() > 0 {
        lemma_sum_donated_absent(donations.drop_last(), aid);
    }
}

/// Appending a payment request adds its contribution to a campaign's
/// settled sum.
pub proof fn lemma_sum_settled_push(requests: Seq<PaymentRequest>, r: PaymentRequest, aid: u32)
    ensures
        sum_settled_for(requests.push(r), aid) == sum_settled_for(requests, aid)
            + settled_contrib(r, aid),
{
    assert(requests.push(r).drop_last() =~= requests);
}

/// Replacing one payment request shifts a campaign's settled sum by the
/// difference of the two contributions.
pub proof fn lemma_sum_settled_update(
    requests: Seq<PaymentRequest>,
    i: int,
    r: PaymentRequest,
    aid: u32,
)
    requires
        0 <= i < requests.len(),
    ensures
        sum_settled_for(requests.update(i, r), aid) == sum_settled_for(requests, aid)
            - settled_contrib(requests[i], aid) + settled_contrib(r, aid),
    decreases requests.len(),
{
    if i == requests.len() - 1 {
        assert(requests.update(i, r).drop_last() =~= requests.drop_last());
    } else {
        assert(requests.update(i, r).drop_last() =~= requests.drop_last().update(i, r));
        lemma_sum_settled_update(requests.drop_last(), i, r, aid);
    }
}

/// A campaign no payment request names has a settled sum of zero.
pub proof fn lemma_sum_settled_absent(requests: Seq<PaymentRequest>, aid: u32)
    requires
        forall|i: int| 0 <= i < requests.len() ==> (#[trigger] requests[i]).animal_id != aid,
    ensures
        sum_settled_for(requests, aid) == 0,
    decreases requests.len(),
{
    if requests.len() > 0 {
        lemma_sum_settled_absent(requests.drop_last(), aid);
    }
}

} // verus!
