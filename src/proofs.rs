use vstd::prelude::*;

use crate::model::{
    backers, campaign_wf, contributed, distinct, listed, refunds, stake_value, staked, transferred,
    CampaignView,
};
use crate::types::{Address, CampaignStatus, Transfer};

verus! {

/// Re-recording the stake of `id` moves the sum by the change in that stake,
/// when `id` is listed once; and the count of backers by one when the stake
/// is new.
pub proof fn lemma_staked_insert(list: Seq<Address>, stakes: Map<u64, i128>, id: u64, v: i128)
    requires
        distinct(list),
    ensures
        staked(list, stakes.insert(id, v)) == staked(list, stakes) + if listed(list, id) {
            v - stake_value(stakes, id)
        } else {
            0
        },
        backers(list, stakes.insert(id, v)) == backers(list, stakes) + if listed(list, id)
            && !stakes.contains_key(id) {
            1int
        } else {
            0int
        },
    decreases list.len(),
{
    if list.len() > 0 {
        lemma_staked_insert(list.drop_last(), stakes, id, v);
    }
}

/// Removing the stake of `id` lowers the sum by that stake and the count of
/// backers by one, when `id` is listed once.
pub proof fn lemma_staked_remove(list: Seq<Address>, stakes: Map<u64, i128>, id: u64)
    requires
        distinct(list),
    ensures
        staked(list, stakes.remove(id)) == staked(list, stakes) - if listed(list, id) {
            stake_value(stakes, id)
        } else {
            0
        },
        backers(list, stakes.remove(id)) == backers(list, stakes) - if listed(list, id)
            && stakes.contains_key(id) {
            1int
        } else {
            0int
        },
    decreases list.len(),
{
    if list.len() > 0 {
        lemma_staked_remove(list.drop_last(), stakes, id);
    }
}

/// With no negative stake, one listed stake is at most the sum, and the sum
/// is not negative.
pub proof fn lemma_stake_within_sum(list: Seq<Address>, stakes: Map<u64, i128>, id: u64)
    requires
        forall|k: u64| #[trigger] stakes.contains_key(k) ==> stakes[k] >= 0,
    ensures
        0 <= staked(list, stakes),
        0 <= backers(list, stakes),
        listed(list, id) ==> stake_value(stakes, id) <= staked(list, stakes),
    decreases list.len(),
{
    if list.len() > 0 {
        lemma_stake_within_sum(list.drop_last(), stakes, id);
    }
}

/// Appending one contributor keeps the earlier ones listed.
pub proof fn lemma_listed_push(list: Seq<Address>, a: Address, id: u64)
    ensures
        listed(list.push(a), id) == (listed(list, id) || a.id == id),
        distinct(list.push(a)) == (distinct(list) && !listed(list, a.id)),
{
    assert(list.push(a).drop_last() =~= list);
}

/// A contribution keeps a consistent campaign consistent.
pub proof fn lemma_contributed_wf(
    c: CampaignView,
    stakes: Map<u64, i128>,
    contributor: Address,
    amount: i128,
)
    requires
        campaign_wf(c, stakes),
        0 <= amount,
        c.total_raised + amount <= c.goal,
        stakes.contains_key(contributor.id) || c.supporters < u32::MAX,
    ensures
        0 <= stake_value(stakes, contributor.id) + amount <= c.goal,
        campaign_wf(
            contributed(c, !stakes.contains_key(contributor.id), contributor, amount),
            stakes.insert(
                contributor.id,
                (stake_value(stakes, contributor.id) + amount) as i128,
            ),
        ),
{
    let id = contributor.id;
    let list = c.contributors;
    let first = !stakes.contains_key(id);
    let v = (stake_value(stakes, id) + amount) as i128;
    let m = stakes.insert(id, v);
    let n = contributed(c, first, contributor, amount);
    lemma_stake_within_sum(list, stakes, id);
    lemma_staked_insert(list, stakes, id, v);
    if listed(list, id) {
        assert(n.contributors == list);
    } else {
        assert(first);
        lemma_listed_push(list, contributor, id);
        lemma_staked_insert(list, stakes, id, v);
        assert(list.push(contributor).drop_last() =~= list);
        assert(staked(list.push(contributor), m) == staked(list, m) + v);
        assert(backers(list.push(contributor), m) == backers(list, m) + 1);
        assert forall|k: u64| #[trigger] m.contains_key(k) implies listed(n.contributors, k) by {
            lemma_listed_push(list, contributor, k);
        }
    }
}

/// A refund keeps a consistent campaign consistent.
pub proof fn lemma_refunded_wf(c: CampaignView, stakes: Map<u64, i128>, contributor: Address)
    requires
        campaign_wf(c, stakes),
        stakes.contains_key(contributor.id),
    ensures
        0 <= c.total_raised - stakes[contributor.id],
        1 <= c.supporters,
        campaign_wf(
            CampaignView {
                total_raised: (c.total_raised - stakes[contributor.id]) as i128,
                supporters: (c.supporters - 1) as u32,
                ..c
            },
            stakes.remove(contributor.id),
        ),
{
    let id = contributor.id;
    let m = stakes.remove(id);
    assert(listed(c.contributors, id));
    lemma_staked_remove(c.contributors, stakes, id);
    assert forall|k: u64| #[trigger] m.contains_key(k) implies m[k] >= 0 by {
        assert(stakes.contains_key(k));
    }
    lemma_stake_within_sum(c.contributors, m, id);
}

/// The refunds of a campaign pay out exactly the sum of its stakes.
pub proof fn lemma_refunds_total(list: Seq<Address>, stakes: Map<u64, i128>, custody: Address)
    ensures
        transferred(refunds(list, stakes, custody)) == staked(list, stakes),
    decreases list.len(),
{
    if list.len() > 0 {
        lemma_refunds_total(list.drop_last(), stakes, custody);
        let rest = refunds(list.drop_last(), stakes, custody);
        let k = list.last();
        if stakes.contains_key(k.id) {
            let t = Transfer { from: custody, to: k, amount: stakes[k.id] };
            assert(rest.push(t).drop_last() =~= rest);
        }
    }
}

/// The contributor at position `i` is listed.
pub proof fn lemma_listed_at(list: Seq<Address>, i: int)
    requires
        0 <= i < list.len(),
    ensures
        listed(list, list[i].id),
    decreases list.len(),
{
    if i < list.len() - 1 {
        lemma_listed_at(list.drop_last(), i);
    }
}

} // verus!
