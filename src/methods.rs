use vstd::prelude::*;

use crate::ledger::Ledger;
use crate::model::{
    add_campaign_spec, campaign_wf, cancel_spec, contribute_spec, initialize_spec, listed,
    refund_spec, refunds, withdraw_spec,
};
use crate::proofs::{lemma_contributed_wf, lemma_listed_at, lemma_refunded_wf};
use crate::types::{Address, Campaign, CampaignStatus, Error, Transfer};

verus! {

/// Whether `a` occurs in `list`.
fn is_listed(list: &Vec<Address>, a: Address) -> (r: bool)
    ensures
        r == listed(list@, a.id),
{
    let mut i: usize = 0;
    while i < list.len()
        invariant
            i <= list@.len(),
            !listed(list@.subrange(0, i as int), a.id),
        decreases list@.len() - i,
    {
        if list[i].id == a.id {
            proof {
                lemma_listed_at(list@, i as int);
            }
            return true;
        }
        assert(list@.subrange(0, i + 1).drop_last() =~= list@.subrange(0, i as int));
        i = i + 1;
    }
    assert(list@.subrange(0, i as int) =~= list@);
    false
}

/// The transfer of `amount` from `from` to `to` in the deployment's token;
/// there is none before the token is recorded.
pub fn token_transfer(store: &Ledger, from: Address, to: Address, amount: i128) -> (r: Result<
    Transfer,
    Error,
>)
    ensures
        r == if store@.token is Some {
            Ok(Transfer { from, to, amount })
        } else {
            Err(Error::ContractNotInitialized)
        },
{
    match store.get_token() {
        Ok(_) => Ok(Transfer { from, to, amount }),
        Err(e) => Err(e),
    }
}

/// Record the admin and the payment token; a second call is refused.
pub fn initialize(store: &mut Ledger, admin: Address, token: Address) -> (r: Result<(), Error>)
    requires
        old(store)@.wf(),
    ensures
        (r, final(store)@) == initialize_spec(old(store)@, admin, token),
        final(store)@.wf(),
{
    if store.has_admin() {
        return Err(Error::ContractInitialized);
    }
    store.set_admin(admin);
    store.set_token(token);
    Ok(())
}

/// Register a campaign for `creator` with a positive `goal`; the admin's
/// authorization is the host's to establish.
pub fn add_campaign(store: &mut Ledger, creator: Address, goal: i128, min_donation: i128) -> (r:
    Result<(), Error>)
    requires
        old(store)@.wf(),
    ensures
        (r, final(store)@) == add_campaign_spec(old(store)@, creator, goal, min_donation),
        final(store)@.wf(),
{
    if let Err(e) = store.get_admin() {
        return Err(e);
    }
    if store.has_campaign(creator) {
        return Err(Error::CampaignAlreadyExists);
    }
    if goal <= 0 {
        return Err(Error::AmountMustBePositive);
    }
    let campaign = Campaign {
        goal,
        min_donation,
        total_raised: 0,
        supporters: 0,
        status: CampaignStatus::Active,
        contributors: Vec::new(),
    };
    store.set_campaign(creator, campaign);
    proof {
        let s = final(store)@;
        let o = old(store)@;
        assert(!o.stakes.contains_key(creator.id));
        assert(s.stakes_of(creator.id) =~= Map::empty());
        assert forall|c: u64| #[trigger] s.campaigns.contains_key(c) implies campaign_wf(
            s.campaigns[c],
            s.stakes_of(c),
        ) by {
            if c != creator.id {
                assert(o.campaigns.contains_key(c));
            }
        }
    }
    Ok(())
}

/// The campaign of `creator`.
pub fn get_campaign(store: &Ledger, creator: Address) -> (r: Result<Campaign, Error>)
    ensures
        match r {
            Ok(c) => store@.campaigns.contains_key(creator.id) && c@
                == store@.campaigns[creator.id],
            Err(e) => !store@.campaigns.contains_key(creator.id) && e == Error::CampaignNotFound,
        },
{
    store.get_campaign(creator)
}

/// `contributor` pledges `amount` to the campaign of `campaign_address`.
/// On success the returned transfer pays the amount into custody.
pub fn contribute(
    store: &mut Ledger,
    contributor: Address,
    campaign_address: Address,
    amount: i128,
) -> (r: Result<Transfer, Error>)
    requires
        old(store)@.wf(),
    ensures
        (r, final(store)@) == contribute_spec(old(store)@, contributor, campaign_address, amount),
        final(store)@.wf(),
{
    let ghost o = store@;
    if let Err(e) = store.get_admin() {
        return Err(e);
    }
    if amount < 0 {
        return Err(Error::AmountMustBePositive);
    }
    let mut campaign = match store.get_campaign(campaign_address) {
        Ok(c) => c,
        Err(e) => return Err(e),
    };
    let ghost c = campaign@;
    let ghost stakes = o.stakes_of(campaign_address.id);
    assert(campaign_wf(c, stakes));
    if amount < campaign.min_donation {
        return Err(Error::ContributionBelowMinimum);
    }
    if amount > campaign.goal - campaign.total_raised {
        return Err(Error::CampaignGoalExceeded);
    }
    let previous: i128 = match store.get_contribution(campaign_address, contributor) {
        Ok(a) => a,
        Err(_) => 0,
    };
    let first = !store.has_contribution(campaign_address, contributor);
    if first && campaign.supporters == u32::MAX {
        return Err(Error::MathOverflow);
    }
    let transfer = match token_transfer(store, contributor, store.contract_address(), amount) {
        Ok(t) => t,
        Err(e) => return Err(e),
    };
    proof {
        lemma_contributed_wf(c, stakes, contributor, amount);
    }
    campaign.total_raised = campaign.total_raised + amount;
    if first {
        campaign.supporters = campaign.supporters + 1;
    }
    if !is_listed(&campaign.contributors, contributor) {
        campaign.contributors.push(contributor);
    }
    store.set_campaign(campaign_address, campaign);
    store.set_contribution(campaign_address, contributor, previous + amount);
    proof {
        let s = final(store)@;
        assert forall|k: u64| #[trigger] s.campaigns.contains_key(k) implies campaign_wf(
            s.campaigns[k],
            s.stakes_of(k),
        ) by {
            if k != campaign_address.id {
                assert(o.campaigns.contains_key(k));
            }
        }
    }
    Ok(transfer)
}

/// The creator of a campaign whose total meets its goal exactly takes the
/// total out of custody; the campaign and its contributions are closed.
pub fn withdraw(store: &mut Ledger, creator: Address) -> (r: Result<Transfer, Error>)
    requires
        old(store)@.wf(),
    ensures
        (r, final(store)@) == withdraw_spec(old(store)@, creator),
        final(store)@.wf(),
{
    let ghost o = store@;
    if let Err(e) = store.get_admin() {
        return Err(e);
    }
    let campaign = match store.get_campaign(creator) {
        Ok(c) => c,
        Err(e) => return Err(e),
    };
    if campaign.total_raised != campaign.goal {
        return Err(Error::CampaignGoalNotReached);
    }
    let transfer = match token_transfer(
        store,
        store.contract_address(),
        creator,
        campaign.total_raised,
    ) {
        Ok(t) => t,
        Err(e) => return Err(e),
    };
    store.remove_campaign(creator);
    store.remove_contributions(creator);
    proof {
        let s = final(store)@;
        assert(s == o.without_campaign(creator.id));
        assert forall|k: u64| #[trigger] s.campaigns.contains_key(k) implies campaign_wf(
            s.campaigns[k],
            s.stakes_of(k),
        ) by {
            assert(o.campaigns.contains_key(k));
        }
    }
    Ok(transfer)
}

/// `contributor` takes its whole recorded stake in the campaign of
/// `campaign_address` back out of custody.
pub fn refund(store: &mut Ledger, contributor: Address, campaign_address: Address) -> (r: Result<
    Transfer,
    Error,
>)
    requires
        old(store)@.wf(),
    ensures
        (r, final(store)@) == refund_spec(old(store)@, contributor, campaign_address),
        final(store)@.wf(),
{
    let ghost o = store@;
    if let Err(e) = store.get_admin() {
        return Err(e);
    }
    let mut campaign = match store.get_campaign(campaign_address) {
        Ok(c) => c,
        Err(e) => return Err(e),
    };
    let amount = match store.get_contribution(campaign_address, contributor) {
        Ok(a) => a,
        Err(e) => return Err(e),
    };
    let transfer = match token_transfer(store, store.contract_address(), contributor, amount) {
        Ok(t) => t,
        Err(e) => return Err(e),
    };
    let ghost c = campaign@;
    let ghost stakes = o.stakes_of(campaign_address.id);
    proof {
        assert(campaign_wf(c, stakes));
        lemma_refunded_wf(c, stakes, contributor);
    }
    campaign.total_raised = campaign.total_raised - amount;
    campaign.supporters = campaign.supporters - 1;
    store.remove_contribution(campaign_address, contributor);
    store.set_campaign(campaign_address, campaign);
    proof {
        let s = final(store)@;
        assert forall|k: u64| #[trigger] s.campaigns.contains_key(k) implies campaign_wf(
            s.campaigns[k],
            s.stakes_of(k),
        ) by {
            if k != campaign_address.id {
                assert(o.campaigns.contains_key(k));
            }
        }
    }
    Ok(transfer)
}

/// The creator of a campaign below its goal closes it; when it holds funds,
/// every recorded stake goes back to its contributor, in the order of the
/// contributor list.
pub fn cancel_campaign(store: &mut Ledger, creator: Address) -> (r: Result<Vec<Transfer>, Error>)
    requires
        old(store)@.wf(),
    ensures
        final(store)@ == cancel_spec(old(store)@, creator).1,
        match r {
            Ok(ts) => cancel_spec(old(store)@, creator).0 == Ok::<Seq<Transfer>, Error>(ts@),
            Err(e) => cancel_spec(old(store)@, creator).0 == Err::<Seq<Transfer>, Error>(e),
        },
        final(store)@.wf(),
{
    let ghost o = store@;
    if let Err(e) = store.get_admin() {
        return Err(e);
    }
    let campaign = match store.get_campaign(creator) {
        Ok(c) => c,
        Err(e) => return Err(e),
    };
    if campaign.total_raised >= campaign.goal {
        return Err(Error::CampaignAlreadyCompleted);
    }
    let ghost stakes = o.stakes_of(creator.id);
    let custody = store.contract_address();
    let mut transfers: Vec<Transfer> = Vec::new();
    if campaign.total_raised > 0 {
        let contributors = &campaign.contributors;
        let mut i: usize = 0;
        while i < contributors.len()
            invariant
                store@ == o,
                o.wf(),
                o.initialized(),
                custody == o.contract,
                stakes == o.stakes_of(creator.id),
                i <= contributors@.len(),
                transfers@ == refunds(contributors@.subrange(0, i as int), stakes, custody),
            decreases contributors@.len() - i,
        {
            let k = contributors[i];
            let ghost before = contributors@.subrange(0, i as int);
            assert(contributors@.subrange(0, i + 1).drop_last() =~= before);
            assert(contributors@.subrange(0, i + 1).last() == k);
            if let Ok(amount) = store.get_contribution(creator, k) {
                match token_transfer(store, custody, k, amount) {
                    Ok(t) => transfers.push(t),
                    Err(e) => return Err(e),
                }
            }
            i = i + 1;
        }
        assert(contributors@.subrange(0, i as int) =~= contributors@);
    }
    store.remove_contributions(creator);
    store.remove_campaign(creator);
    proof {
        let s = final(store)@;
        assert(s == o.without_campaign(creator.id));
        assert forall|k: u64| #[trigger] s.campaigns.contains_key(k) implies campaign_wf(
            s.campaigns[k],
            s.stakes_of(k),
        ) by {
            assert(o.campaigns.contains_key(k));
        }
    }
    Ok(transfers)
}

} // verus!
