use std::collections::HashMap;

use vstd::prelude::*;

use crate::model::LedgerView;
use crate::types::{Address, Campaign, Error};

verus! {

/// The durable records of one deployment: the admin and token singletons,
/// one campaign per creator, and the contributions to each campaign grouped
/// under its creator's identity.
pub struct Ledger {
    contract: Address,
    admin: Option<Address>,
    token: Option<Address>,
    campaigns: HashMap<u64, Campaign>,
    contributions: HashMap<u64, HashMap<u64, i128>>,
}

impl View for Ledger {
    type V = LedgerView;

    closed spec fn view(&self) -> LedgerView {
        LedgerView {
            contract: self.contract,
            admin: self.admin,
            token: self.token,
            campaigns: self.campaigns@.map_values(|c: Campaign| c@),
            stakes: self.contributions@.map_values(|m: HashMap<u64, i128>| m@),
        }
    }
}

/// A copy of `c` with the same contents.
fn copy_campaign(c: &Campaign) -> (r: Campaign)
    ensures
        r@ == c@,
{
    let mut contributors: Vec<Address> = Vec::new();
    let mut i: usize = 0;
    while i < c.contributors.len()
        invariant
            i <= c.contributors@.len(),
            contributors@ == c.contributors@.subrange(0, i as int),
        decreases c.contributors@.len() - i,
    {
        contributors.push(c.contributors[i]);
        i = i + 1;
        assert(contributors@ =~= c.contributors@.subrange(0, i as int));
    }
    assert(contributors@ =~= c.contributors@);
    Campaign {
        goal: c.goal,
        min_donation: c.min_donation,
        total_raised: c.total_raised,
        supporters: c.supporters,
        status: c.status,
        contributors,
    }
}

impl Ledger {
    /// An empty ledger whose custody account is `contract`.
    pub fn new(contract: Address) -> (r: Ledger)
        ensures
            r@ == (LedgerView {
                contract,
                admin: None,
                token: None,
                campaigns: Map::empty(),
                stakes: Map::empty(),
            }),
    {
        let r = Ledger {
            contract,
            admin: None,
            token: None,
            campaigns: HashMap::new(),
            contributions: HashMap::new(),
        };
        assert(r@.campaigns =~= Map::empty());
        assert(r@.stakes =~= Map::empty());
        r
    }

    /// The custody account that holds pledged funds.
    pub fn contract_address(&self) -> (r: Address)
        ensures
            r == self@.contract,
    {
        self.contract
    }

    pub fn has_admin(&self) -> (r: bool)
        ensures
            r == self@.admin is Some,
    {
        self.admin.is_some()
    }

    pub fn set_admin(&mut self, admin: Address)
        ensures
            final(self)@ == (LedgerView { admin: Some(admin), ..old(self)@ }),
    {
        self.admin = Some(admin);
    }

    pub fn get_admin(&self) -> (r: Result<Address, Error>)
        ensures
            r == match self@.admin {
                Some(a) => Ok(a),
                None => Err(Error::ContractNotInitialized),
            },
    {
        match self.admin {
            Some(a) => Ok(a),
            None => Err(Error::ContractNotInitialized),
        }
    }

    pub fn set_token(&mut self, token: Address)
        ensures
            final(self)@ == (LedgerView { token: Some(token), ..old(self)@ }),
    {
        self.token = Some(token);
    }

    pub fn get_token(&self) -> (r: Result<Address, Error>)
        ensures
            r == match self@.token {
                Some(a) => Ok(a),
                None => Err(Error::ContractNotInitialized),
            },
    {
        match self.token {
            Some(a) => Ok(a),
            None => Err(Error::ContractNotInitialized),
        }
    }

    pub fn has_campaign(&self, creator: Address) -> (r: bool)
        ensures
            r == self@.campaigns.contains_key(creator.id),
    {
        self.campaigns.contains_key(&creator.id)
    }

    pub fn get_campaign(&self, creator: Address) -> (r: Result<Campaign, Error>)
        ensures
            match r {
                Ok(c) => self@.campaigns.contains_key(creator.id) && c@ == self@.campaigns[creator.id],
                Err(e) => !self@.campaigns.contains_key(creator.id) && e == Error::CampaignNotFound,
            },
    {
        match self.campaigns.get(&creator.id) {
            Some(c) => Ok(copy_campaign(c)),
            None => Err(Error::CampaignNotFound),
        }
    }

    pub fn set_campaign(&mut self, creator: Address, campaign: Campaign)
        ensures
            final(self)@ == (LedgerView {
                campaigns: old(self)@.campaigns.insert(creator.id, campaign@),
                ..old(self)@
            }),
    {
        let ghost v = campaign@;
        self.campaigns.insert(creator.id, campaign);
        assert(self@.campaigns =~= old(self)@.campaigns.insert(creator.id, v));
    }

    pub fn remove_campaign(&mut self, creator: Address)
        ensures
            final(self)@ == (LedgerView {
                campaigns: old(self)@.campaigns.remove(creator.id),
                ..old(self)@
            }),
    {
        self.campaigns.remove(&creator.id);
        assert(self@.campaigns =~= old(self)@.campaigns.remove(creator.id));
    }

    pub fn has_contribution(&self, campaign: Address, contributor: Address) -> (r: bool)
        ensures
            r == self@.stake(campaign.id, contributor.id) is Some,
    {
        match self.contributions.get(&campaign.id) {
            Some(m) => m.contains_key(&contributor.id),
            None => false,
        }
    }

    pub fn get_contribution(&self, campaign: Address, contributor: Address) -> (r: Result<
        i128,
        Error,
    >)
        ensures
            r == match self@.stake(campaign.id, contributor.id) {
                Some(a) => Ok(a),
                None => Err(Error::ContributionNotFound),
            },
    {
        match self.contributions.get(&campaign.id) {
            Some(m) => match m.get(&contributor.id) {
                Some(a) => Ok(*a),
                None => Err(Error::ContributionNotFound),
            },
            None => Err(Error::ContributionNotFound),
        }
    }

    /// The stakes of `campaign`, taken out of the ledger.
    fn take_stakes(&mut self, campaign: Address) -> (r: HashMap<u64, i128>)
        ensures
            r@ == old(self)@.stakes_of(campaign.id),
            final(self)@ == (LedgerView {
                stakes: old(self)@.stakes.remove(campaign.id),
                ..old(self)@
            }),
    {
        let r = match self.contributions.remove(&campaign.id) {
            Some(m) => m,
            None => HashMap::new(),
        };
        assert(self@.stakes =~= old(self)@.stakes.remove(campaign.id));
        assert(r@ =~= old(self)@.stakes_of(campaign.id));
        r
    }

    /// Record `amount` as the contribution of `contributor` to `campaign`.
    pub fn set_contribution(&mut self, campaign: Address, contributor: Address, amount: i128)
        ensures
            final(self)@ == (LedgerView {
                stakes: old(self)@.stakes.insert(
                    campaign.id,
                    old(self)@.stakes_of(campaign.id).insert(contributor.id, amount),
                ),
                ..old(self)@
            }),
    {
        let mut m = self.take_stakes(campaign);
        m.insert(contributor.id, amount);
        let ghost mv = m@;
        let ghost mid = self.contributions@;
        self.contributions.insert(campaign.id, m);
        assert(self.contributions@ == mid.insert(campaign.id, m));
        assert(self@.stakes =~= mid.map_values(|m: HashMap<u64, i128>| m@).insert(campaign.id, mv));
        assert(self@.stakes =~= old(self)@.stakes.insert(campaign.id, mv));
    }

    /// Delete the contribution of `contributor` to `campaign`, if any.
    pub fn remove_contribution(&mut self, campaign: Address, contributor: Address)
        ensures
            final(self)@ == (LedgerView {
                stakes: old(self)@.stakes.insert(
                    campaign.id,
                    old(self)@.stakes_of(campaign.id).remove(contributor.id),
                ),
                ..old(self)@
            }),
    {
        let mut m = self.take_stakes(campaign);
        m.remove(&contributor.id);
        let ghost mv = m@;
        let ghost mid = self.contributions@;
        self.contributions.insert(campaign.id, m);
        assert(self.contributions@ == mid.insert(campaign.id, m));
        assert(self@.stakes =~= mid.map_values(|m: HashMap<u64, i128>| m@).insert(campaign.id, mv));
        assert(self@.stakes =~= old(self)@.stakes.insert(campaign.id, mv));
    }

    /// Delete every contribution to `campaign`.
    pub fn remove_contributions(&mut self, campaign: Address)
        ensures
            final(self)@ == (LedgerView {
                stakes: old(self)@.stakes.remove(campaign.id),
                ..old(self)@
            }),
    {
        let _ = self.take_stakes(campaign);
    }

    /// The contributor list of the campaign of `campaign`.
    pub fn get_all_contributors(&self, campaign: Address) -> (r: Result<Vec<Address>, Error>)
        ensures
            match r {
                Ok(v) => self@.campaigns.contains_key(campaign.id) && v@
                    == self@.campaigns[campaign.id].contributors,
                Err(e) => !self@.campaigns.contains_key(campaign.id) && e
                    == Error::CampaignNotFound,
            },
    {
        let c = self.get_campaign(campaign)?;
        Ok(c.contributors)
    }
}

} // verus!
