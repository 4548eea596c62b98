use vstd::prelude::*;

use crate::ledger::Ledger;
use crate::methods;
use crate::model::{
    add_campaign_spec, cancel_spec, contribute_spec, initialize_spec, refund_spec, withdraw_spec,
    LedgerView,
};
use crate::types::{Address, Campaign, Error, Transfer};

verus! {

/// One deployment of the crowdfunding ledger: its entry points.
///
/// Authorization stays with the host: before each call it must establish
/// that the caller is the admin (`create_campaign`), the contributor
/// (`contribute`, `refund`) or the creator (`withdraw`, `cancel_campaign`).
/// The transfers returned on success are for the host to carry out, all of
/// them or, aborting the whole call, none.
pub struct CrowdfundingContract {
    ledger: Ledger,
}

impl View for CrowdfundingContract {
    type V = LedgerView;

    closed spec fn view(&self) -> LedgerView {
        self.ledger@
    }
}

impl CrowdfundingContract {
    /// A deployment whose custody account is `contract`, administered by
    /// `admin`, paying in `token`.
    pub fn new(contract: Address, admin: Address, token: Address) -> (r: CrowdfundingContract)
        ensures
            r@ == (LedgerView {
                contract,
                admin: Some(admin),
                token: Some(token),
                campaigns: Map::empty(),
                stakes: Map::empty(),
            }),
            r@.wf(),
    {
        let mut ledger = Ledger::new(contract);
        let _ = methods::initialize(&mut ledger, admin, token);
        CrowdfundingContract { ledger }
    }

    /// The records of the deployment.
    pub fn ledger(&self) -> (r: &Ledger)
        ensures
            r@ == self@,
    {
        &self.ledger
    }

    pub fn create_campaign(&mut self, creator: Address, goal: i128, min_donation: i128) -> (r:
        Result<(), Error>)
        requires
            old(self)@.wf(),
        ensures
            (r, final(self)@) == add_campaign_spec(old(self)@, creator, goal, min_donation),
            final(self)@.wf(),
    {
        methods::add_campaign(&mut self.ledger, creator, goal, min_donation)
    }

    pub fn get_campaign(&self, campaign_address: Address) -> (r: Result<Campaign, Error>)
        ensures
            match r {
                Ok(c) => self@.campaigns.contains_key(campaign_address.id) && c@
                    == self@.campaigns[campaign_address.id],
                Err(e) => !self@.campaigns.contains_key(campaign_address.id) && e
                    == Error::CampaignNotFound,
            },
    {
        methods::get_campaign(&self.ledger, campaign_address)
    }

    pub fn contribute(&mut self, contributor: Address, campaign_address: Address, amount: i128) -> (r:
        Result<Transfer, Error>)
        requires
            old(self)@.wf(),
        ensures
            (r, final(self)@) == contribute_spec(old(self)@, contributor, campaign_address, amount),
            final(self)@.wf(),
    {
        methods::contribute(&mut self.ledger, contributor, campaign_address, amount)
    }

    pub fn withdraw(&mut self, creator: Address) -> (r: Result<Transfer, Error>)
        requires
            old(self)@.wf(),
        ensures
            (r, final(self)@) == withdraw_spec(old(self)@, creator),
            final(self)@.wf(),
    {
        methods::withdraw(&mut self.ledger, creator)
    }

    pub fn refund(&mut self, contributor: Address, campaign_address: Address) -> (r: Result<
        Transfer,
        Error,
    >)
        requires
            old(self)@.wf(),
        ensures
            (r, final(self)@) == refund_spec(old(self)@, contributor, campaign_address),
            final(self)@.wf(),
    {
        methods::refund(&mut self.ledger, contributor, campaign_address)
    }

    pub fn cancel_campaign(&mut self, creator: Address) -> (r: Result<Vec<Transfer>, Error>)
        requires
            old(self)@.wf(),
        ensures
            final(self)@ == cancel_spec(old(self)@, creator).1,
            match r {
                Ok(ts) => cancel_spec(old(self)@, creator).0 == Ok::<Seq<Transfer>, Error>(ts@),
                Err(e) => cancel_spec(old(self)@, creator).0 == Err::<Seq<Transfer>, Error>(e),
            },
            final(self)@.wf(),
    {
        methods::cancel_campaign(&mut self.ledger, creator)
    }
}

} // verus!
