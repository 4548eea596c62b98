use vstd::prelude::*;

use crate::types::{Address, Campaign, CampaignStatus, Error, Transfer};

verus! {

/// The mathematical value of a campaign: its contributors as a sequence.
pub struct CampaignView {
    pub goal: i128,
    pub min_donation: i128,
    pub total_raised: i128,
    pub supporters: u32,
    pub status: CampaignStatus,
    pub contributors: Seq<Address>,
}

impl View for Campaign {
    type V = CampaignView;

    open spec fn view(&self) -> CampaignView {
        CampaignView {
            goal: self.goal,
            min_donation: self.min_donation,
            total_raised: self.total_raised,
            supporters: self.supporters,
            status: self.status,
            contributors: self.contributors@,
        }
    }
}

/// The mathematical value of the whole ledger.
///
/// `campaigns` maps a creator's identity to its campaign; `stakes` maps a
/// creator's identity to the recorded contributions to that campaign, each
/// keyed by the contributor's identity. `contract` is the custody account.
pub struct LedgerView {
    pub contract: Address,
    pub admin: Option<Address>,
    pub token: Option<Address>,
    pub campaigns: Map<u64, CampaignView>,
    pub stakes: Map<u64, Map<u64, i128>>,
}

/// Whether some element of `list` carries the identity `id`.
pub open spec fn listed(list: Seq<Address>, id: u64) -> bool
    decreases list.len(),
{
    if list.len() == 0 {
        false
    } else {
        list.last().id == id || listed(list.drop_last(), id)
    }
}

/// Whether no identity occurs twice in `list`.
pub open spec fn distinct(list: Seq<Address>) -> bool
    decreases list.len(),
{
    if list.len() == 0 {
        true
    } else {
        !listed(list.drop_last(), list.last().id) && distinct(list.drop_last())
    }
}

/// The recorded stake of `id`, zero when there is none.
pub open spec fn stake_value(stakes: Map<u64, i128>, id: u64) -> int {
    if stakes.contains_key(id) {
        stakes[id] as int
    } else {
        0
    }
}

/// The sum of the recorded stakes of the contributors in `list`.
pub open spec fn staked(list: Seq<Address>, stakes: Map<u64, i128>) -> int
    decreases list.len(),
{
    if list.len() == 0 {
        0
    } else {
        staked(list.drop_last(), stakes) + stake_value(stakes, list.last().id)
    }
}

/// How many contributors in `list` hold a recorded stake.
pub open spec fn backers(list: Seq<Address>, stakes: Map<u64, i128>) -> int
    decreases list.len(),
{
    if list.len() == 0 {
        0
    } else {
        backers(list.drop_last(), stakes) + if stakes.contains_key(list.last().id) {
            1int
        } else {
            0int
        }
    }
}

/// The transfers that hand every recorded stake of `list` back from `custody`,
/// in the order of `list`.
pub open spec fn refunds(list: Seq<Address>, stakes: Map<u64, i128>, custody: Address) -> Seq<
    Transfer,
>
    decreases list.len(),
{
    if list.len() == 0 {
        Seq::empty()
    } else {
        let k = list.last();
        let rest = refunds(list.drop_last(), stakes, custody);
        if stakes.contains_key(k.id) {
            rest.push(Transfer { from: custody, to: k, amount: stakes[k.id] })
        } else {
            rest
        }
    }
}

/// The sum of the amounts of `ts`.
pub open spec fn transferred(ts: Seq<Transfer>) -> int
    decreases ts.len(),
{
    if ts.len() == 0 {
        0
    } else {
        transferred(ts.drop_last()) + ts.last().amount as int
    }
}

/// What `a` gains, net, when all of `ts` are carried out.
pub open spec fn net_flow(ts: Seq<Transfer>, a: Address) -> int
    decreases ts.len(),
{
    if ts.len() == 0 {
        0
    } else {
        let t = ts.last();
        net_flow(ts.drop_last(), a) + (if t.to == a {
            t.amount as int
        } else {
            0
        }) - (if t.from == a {
            t.amount as int
        } else {
            0
        })
    }
}

/// A campaign is consistent with its recorded stakes: the contributor list
/// has no repetition and covers every stake, the total is the sum of the
/// stakes, the supporters are those who hold one, and the total lies between
/// zero and the goal.
pub open spec fn campaign_wf(c: CampaignView, stakes: Map<u64, i128>) -> bool {
    &&& distinct(c.contributors)
    &&& forall|k: u64| #[trigger]
        stakes.contains_key(k) ==> listed(c.contributors, k) && stakes[k] >= 0
    &&& c.total_raised == staked(c.contributors, stakes)
    &&& c.supporters == backers(c.contributors, stakes)
    &&& 0 <= c.total_raised <= c.goal
    &&& c.status == CampaignStatus::Active
}

/// A fresh campaign with no contributions.
pub open spec fn fresh_campaign(goal: i128, min_donation: i128) -> CampaignView {
    CampaignView {
        goal,
        min_donation,
        total_raised: 0,
        supporters: 0,
        status: CampaignStatus::Active,
        contributors: Seq::empty(),
    }
}

impl LedgerView {
    /// Whether the admin and the token have been recorded.
    pub open spec fn initialized(self) -> bool {
        self.admin is Some
    }

    /// The recorded contributions to the campaign of `creator`.
    pub open spec fn stakes_of(self, creator: u64) -> Map<u64, i128> {
        if self.stakes.contains_key(creator) {
            self.stakes[creator]
        } else {
            Map::empty()
        }
    }

    /// The recorded contribution of `contributor` to the campaign of `creator`.
    pub open spec fn stake(self, creator: u64, contributor: u64) -> Option<i128> {
        if self.stakes_of(creator).contains_key(contributor) {
            Some(self.stakes_of(creator)[contributor])
        } else {
            None
        }
    }

    /// Admin and token are set together, every campaign is consistent with
    /// its stakes, and no stake outlives its campaign.
    pub open spec fn wf(self) -> bool {
        &&& (self.admin is Some <==> self.token is Some)
        &&& forall|c: u64| #[trigger]
            self.campaigns.contains_key(c) ==> campaign_wf(self.campaigns[c], self.stakes_of(c))
        &&& forall|c: u64| #[trigger] self.stakes.contains_key(c) ==> self.campaigns.contains_key(c)
    }

    /// The ledger with `c` as the campaign of `creator` and `stakes` as its
    /// contributions.
    pub open spec fn with_campaign(self, creator: u64, c: CampaignView, stakes: Map<u64, i128>) -> LedgerView {
        LedgerView {
            campaigns: self.campaigns.insert(creator, c),
            stakes: self.stakes.insert(creator, stakes),
            ..self
        }
    }

    /// The ledger without the campaign of `creator` and its contributions.
    pub open spec fn without_campaign(self, creator: u64) -> LedgerView {
        LedgerView {
            campaigns: self.campaigns.remove(creator),
            stakes: self.stakes.remove(creator),
            ..self
        }
    }
}

/// `initialize`: record the admin and the token, once.
pub open spec fn initialize_spec(s: LedgerView, admin: Address, token: Address) -> (Result<(), Error>, LedgerView) {
    if s.admin is Some {
        (Err(Error::ContractInitialized), s)
    } else {
        (Ok(()), LedgerView { admin: Some(admin), token: Some(token), ..s })
    }
}

/// `add_campaign`: register a fresh campaign for `creator`.
pub open spec fn add_campaign_spec(s: LedgerView, creator: Address, goal: i128, min_donation: i128) -> (Result<(), Error>, LedgerView) {
    if !s.initialized() {
        (Err(Error::ContractNotInitialized), s)
    } else if s.campaigns.contains_key(creator.id) {
        (Err(Error::CampaignAlreadyExists), s)
    } else if goal <= 0 {
        (Err(Error::AmountMustBePositive), s)
    } else {
        (Ok(()), LedgerView { campaigns: s.campaigns.insert(creator.id, fresh_campaign(goal, min_donation)), ..s })
    }
}

/// The campaign after `contributor` adds `amount` to it.
pub open spec fn contributed(c: CampaignView, first: bool, contributor: Address, amount: i128) -> CampaignView {
    CampaignView {
        total_raised: (c.total_raised + amount) as i128,
        supporters: if first { (c.supporters + 1) as u32 } else { c.supporters },
        contributors: if listed(c.contributors, contributor.id) {
            c.contributors
        } else {
            c.contributors.push(contributor)
        },
        ..c
    }
}

/// `contribute`: `contributor` pledges `amount` to the campaign of `campaign`,
/// paying it into custody; its recorded stake grows by `amount`.
pub open spec fn contribute_spec(s: LedgerView, contributor: Address, campaign: Address, amount: i128) -> (Result<Transfer, Error>, LedgerView) {
    let c = s.campaigns[campaign.id];
    let first = s.stake(campaign.id, contributor.id) is None;
    if !s.initialized() {
        (Err(Error::ContractNotInitialized), s)
    } else if amount < 0 {
        (Err(Error::AmountMustBePositive), s)
    } else if !s.campaigns.contains_key(campaign.id) {
        (Err(Error::CampaignNotFound), s)
    } else if amount < c.min_donation {
        (Err(Error::ContributionBelowMinimum), s)
    } else if c.total_raised + amount > c.goal {
        (Err(Error::CampaignGoalExceeded), s)
    } else if first && c.supporters == u32::MAX {
        (Err(Error::MathOverflow), s)
    } else {
        (
            Ok(Transfer { from: contributor, to: s.contract, amount }),
            s.with_campaign(
                campaign.id,
                contributed(c, first, contributor, amount),
                s.stakes_of(campaign.id).insert(
                    contributor.id,
                    (stake_value(s.stakes_of(campaign.id), contributor.id) + amount) as i128,
                ),
            ),
        )
    }
}

/// `withdraw`: a campaign that met its goal exactly pays its total to its
/// creator and closes.
pub open spec fn withdraw_spec(s: LedgerView, creator: Address) -> (Result<Transfer, Error>, LedgerView) {
    let c = s.campaigns[creator.id];
    if !s.initialized() {
        (Err(Error::ContractNotInitialized), s)
    } else if !s.campaigns.contains_key(creator.id) {
        (Err(Error::CampaignNotFound), s)
    } else if c.total_raised != c.goal {
        (Err(Error::CampaignGoalNotReached), s)
    } else {
        (
            Ok(Transfer { from: s.contract, to: creator, amount: c.total_raised }),
            s.without_campaign(creator.id),
        )
    }
}

/// `refund`: `contributor` takes its whole recorded stake in the campaign of
/// `campaign` back out of custody.
pub open spec fn refund_spec(s: LedgerView, contributor: Address, campaign: Address) -> (Result<Transfer, Error>, LedgerView) {
    let c = s.campaigns[campaign.id];
    let stakes = s.stakes_of(campaign.id);
    if !s.initialized() {
        (Err(Error::ContractNotInitialized), s)
    } else if !s.campaigns.contains_key(campaign.id) {
        (Err(Error::CampaignNotFound), s)
    } else if !stakes.contains_key(contributor.id) {
        (Err(Error::ContributionNotFound), s)
    } else {
        let amount = stakes[contributor.id];
        (
            Ok(Transfer { from: s.contract, to: contributor, amount }),
            s.with_campaign(
                campaign.id,
                CampaignView {
                    total_raised: (c.total_raised - amount) as i128,
                    supporters: (c.supporters - 1) as u32,
                    ..c
                },
                stakes.remove(contributor.id),
            ),
        )
    }
}

/// `cancel_campaign`: a campaign below its goal hands every recorded stake
/// back, in the order of its contributor list, and closes.
pub open spec fn cancel_spec(s: LedgerView, creator: Address) -> (Result<Seq<Transfer>, Error>, LedgerView) {
    let c = s.campaigns[creator.id];
    if !s.initialized() {
        (Err(Error::ContractNotInitialized), s)
    } else if !s.campaigns.contains_key(creator.id) {
        (Err(Error::CampaignNotFound), s)
    } else if c.total_raised >= c.goal {
        (Err(Error::CampaignAlreadyCompleted), s)
    } else {
        (
            Ok(
                if c.total_raised > 0 {
                    refunds(c.contributors, s.stakes_of(creator.id), s.contract)
                } else {
                    Seq::empty()
                },
            ),
            s.without_campaign(creator.id),
        )
    }
}

} // verus!
