use vstd::prelude::*;

use crate::model::{
    add_campaign_spec, campaign_wf, cancel_spec, contribute_spec, distinct, listed, net_flow,
    refund_spec, refunds, stake_value, transferred, withdraw_spec, LedgerView,
};
use crate::proofs::{lemma_contributed_wf, lemma_refunds_total};
use crate::types::{Address, Error, Transfer};

verus! {

/// A contribution keeps the ledger consistent.
pub proof fn lemma_contribute_keeps_wf(
    s: LedgerView,
    contributor: Address,
    campaign: Address,
    amount: i128,
)
    requires
        s.wf(),
    ensures
        contribute_spec(s, contributor, campaign, amount).1.wf(),
{
    let r = contribute_spec(s, contributor, campaign, amount);
    if r.0 is Ok {
        let id = campaign.id;
        let stakes = s.stakes_of(id);
        assert(campaign_wf(s.campaigns[id], stakes));
        lemma_contributed_wf(s.campaigns[id], stakes, contributor, amount);
        let t = r.1;
        assert forall|k: u64| #[trigger] t.campaigns.contains_key(k) implies campaign_wf(
            t.campaigns[k],
            t.stakes_of(k),
        ) by {
            if k != id {
                assert(s.campaigns.contains_key(k));
            }
        }
    }
}

/// The ledger after `contribute` is applied, in order, to each
/// `(contributor, amount)` of `ops`, all aimed at the campaign of `campaign`.
pub open spec fn contribute_all(s: LedgerView, campaign: Address, ops: Seq<(Address, i128)>) -> LedgerView
    decreases ops.len(),
{
    if ops.len() == 0 {
        s
    } else {
        contribute_spec(contribute_all(s, campaign, ops.drop_last()), ops.last().0, campaign, ops.last().1).1
    }
}

/// The sum of the amounts of `ops` that `contribute` accepted along the way.
pub open spec fn accepted_sum(s: LedgerView, campaign: Address, ops: Seq<(Address, i128)>) -> int
    decreases ops.len(),
{
    if ops.len() == 0 {
        0
    } else {
        let before = contribute_all(s, campaign, ops.drop_last());
        accepted_sum(s, campaign, ops.drop_last()) + if contribute_spec(
            before,
            ops.last().0,
            campaign,
            ops.last().1,
        ).0 is Ok {
            ops.last().1 as int
        } else {
            0
        }
    }
}

/// After any sequence of contributions to one campaign, its total is what it
/// held before plus the sum of the accepted amounts, and never above its goal.
pub proof fn lemma_total_is_sum_of_accepted(
    s: LedgerView,
    campaign: Address,
    ops: Seq<(Address, i128)>,
)
    requires
        s.wf(),
        s.campaigns.contains_key(campaign.id),
    ensures
        contribute_all(s, campaign, ops).wf(),
        contribute_all(s, campaign, ops).campaigns.contains_key(campaign.id),
        contribute_all(s, campaign, ops).campaigns[campaign.id].goal == s.campaigns[campaign.id].goal,
        contribute_all(s, campaign, ops).campaigns[campaign.id].total_raised
            == s.campaigns[campaign.id].total_raised + accepted_sum(s, campaign, ops),
        contribute_all(s, campaign, ops).campaigns[campaign.id].total_raised
            <= s.campaigns[campaign.id].goal,
    decreases ops.len(),
{
    if ops.len() > 0 {
        lemma_total_is_sum_of_accepted(s, campaign, ops.drop_last());
        let before = contribute_all(s, campaign, ops.drop_last());
        lemma_contribute_keeps_wf(before, ops.last().0, campaign, ops.last().1);
        let after = contribute_all(s, campaign, ops);
        assert(campaign_wf(after.campaigns[campaign.id], after.stakes_of(campaign.id)));
    }
}

/// Refunding right after a first contribution hands back exactly what was
/// paid in, so the contributor's balance is as before; the record is gone
/// and a second refund finds nothing.
pub proof fn lemma_refund_undoes_contribute(
    s: LedgerView,
    contributor: Address,
    campaign: Address,
    amount: i128,
)
    requires
        s.wf(),
        s.stake(campaign.id, contributor.id) is None,
        contribute_spec(s, contributor, campaign, amount).0 is Ok,
    ensures
        ({
            let (paid, s1) = contribute_spec(s, contributor, campaign, amount);
            let (back, s2) = refund_spec(s1, contributor, campaign);
            &&& paid == Ok::<Transfer, Error>(Transfer { from: contributor, to: s.contract, amount })
            &&& back == Ok::<Transfer, Error>(Transfer { from: s.contract, to: contributor, amount })
            &&& net_flow(seq![paid->Ok_0, back->Ok_0], contributor) == 0
            &&& s2.stake(campaign.id, contributor.id) is None
            &&& s2.campaigns[campaign.id].total_raised == s.campaigns[campaign.id].total_raised
            &&& refund_spec(s2, contributor, campaign).0 == Err::<Transfer, Error>(
                Error::ContributionNotFound,
            )
        }),
{
    let (paid, s1) = contribute_spec(s, contributor, campaign, amount);
    let (back, s2) = refund_spec(s1, contributor, campaign);
    let ts = seq![paid->Ok_0, back->Ok_0];
    lemma_contribute_keeps_wf(s, contributor, campaign, amount);
    assert(ts.drop_last() =~= seq![paid->Ok_0]);
    assert(ts.drop_last().drop_last() =~= Seq::<Transfer>::empty());
    assert(s1.stakes_of(campaign.id) =~= s.stakes_of(campaign.id).insert(contributor.id, amount));
    assert(s2.stakes_of(campaign.id) =~= s1.stakes_of(campaign.id).remove(contributor.id));
    reveal_with_fuel(net_flow, 3);
}

/// `withdraw` succeeds on a campaign exactly when its total equals its goal;
/// one short of the goal it fails with `CampaignGoalNotReached`.
pub proof fn lemma_withdraw_iff_goal_met(s: LedgerView, creator: Address)
    requires
        s.wf(),
        s.initialized(),
        s.campaigns.contains_key(creator.id),
    ensures
        withdraw_spec(s, creator).0 is Ok <==> s.campaigns[creator.id].total_raised
            == s.campaigns[creator.id].goal,
        s.campaigns[creator.id].total_raised == s.campaigns[creator.id].goal - 1
            ==> withdraw_spec(s, creator).0 == Err::<Transfer, Error>(
            Error::CampaignGoalNotReached,
        ),
{
}

/// A non-negative contribution below the campaign's minimum fails with
/// `ContributionBelowMinimum` and changes nothing.
pub proof fn lemma_below_minimum_refused(
    s: LedgerView,
    contributor: Address,
    campaign: Address,
    amount: i128,
)
    requires
        s.wf(),
        s.initialized(),
        s.campaigns.contains_key(campaign.id),
        0 <= amount < s.campaigns[campaign.id].min_donation,
    ensures
        contribute_spec(s, contributor, campaign, amount).0 == Err::<Transfer, Error>(
            Error::ContributionBelowMinimum,
        ),
        contribute_spec(s, contributor, campaign, amount).1 == s,
{
}

/// Once a creator has a campaign, a second one for the same creator is
/// refused with `CampaignAlreadyExists` and the first stays as it was.
pub proof fn lemma_one_campaign_per_creator(
    s: LedgerView,
    creator: Address,
    goal: i128,
    min_donation: i128,
    goal2: i128,
    min_donation2: i128,
)
    requires
        s.wf(),
        add_campaign_spec(s, creator, goal, min_donation).0 is Ok,
    ensures
        ({
            let s1 = add_campaign_spec(s, creator, goal, min_donation).1;
            &&& add_campaign_spec(s1, creator, goal2, min_donation2).0 == Err::<(), Error>(
                Error::CampaignAlreadyExists,
            )
            &&& add_campaign_spec(s1, creator, goal2, min_donation2).1 == s1
        }),
{
}

/// In the refunds of a list without repetition, every principal but the
/// custody account gains exactly its listed stake.
pub proof fn lemma_refunds_net(
    list: Seq<Address>,
    stakes: Map<u64, i128>,
    custody: Address,
    k: Address,
)
    requires
        distinct(list),
        k != custody,
    ensures
        net_flow(refunds(list, stakes, custody), k) == if listed(list, k.id) {
            stake_value(stakes, k.id)
        } else {
            0
        },
    decreases list.len(),
{
    if list.len() > 0 {
        lemma_refunds_net(list.drop_last(), stakes, custody, k);
        let rest = refunds(list.drop_last(), stakes, custody);
        let last = list.last();
        if last.id == k.id {
            assert(last == k);
        }
        if stakes.contains_key(last.id) {
            let t = Transfer { from: custody, to: last, amount: stakes[last.id] };
            assert(rest.push(t).drop_last() =~= rest);
        }
    }
}

/// Cancelling a campaign that holds funds below its goal pays every
/// contributor exactly its recorded stake, pays out the whole total, and
/// leaves neither the campaign nor any of its contributions behind.
pub proof fn lemma_cancel_refunds_everyone(s: LedgerView, creator: Address)
    requires
        s.wf(),
        s.initialized(),
        s.campaigns.contains_key(creator.id),
        0 < s.campaigns[creator.id].total_raised < s.campaigns[creator.id].goal,
    ensures
        ({
            let (r, t) = cancel_spec(s, creator);
            &&& r is Ok
            &&& forall|k: Address|
                k != s.contract ==> #[trigger] net_flow(r->Ok_0, k) == stake_value(
                    s.stakes_of(creator.id),
                    k.id,
                )
            &&& transferred(r->Ok_0) == s.campaigns[creator.id].total_raised
            &&& !t.campaigns.contains_key(creator.id)
            &&& forall|k: u64| #[trigger] t.stake(creator.id, k) is None
        }),
{
    let c = s.campaigns[creator.id];
    let stakes = s.stakes_of(creator.id);
    assert(campaign_wf(c, stakes));
    let ts = refunds(c.contributors, stakes, s.contract);
    assert forall|k: Address| k != s.contract implies #[trigger] net_flow(ts, k) == stake_value(
        stakes,
        k.id,
    ) by {
        lemma_refunds_net(c.contributors, stakes, s.contract, k);
        if stakes.contains_key(k.id) {
            assert(listed(c.contributors, k.id));
        }
    }
    lemma_refunds_total(c.contributors, stakes, s.contract);
}

} // verus!
