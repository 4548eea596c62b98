use vstd::prelude::*;

verus! {

/// A principal: an account or a contract, known by a numeric identity.
#[derive(Clone, Copy, Debug, PartialEq, Eq, Structural, Hash)]
pub struct Address {
    pub id: u64,
}

/// Every way in which an operation of the ledger can fail.
#[derive(Clone, Copy, Debug, PartialEq, Eq, Structural)]
pub enum Error {
    ContractInitialized,
    ContractNotInitialized,
    MathOverflow,
    MathUnderflow,
    CampaignNotFound,
    CampaignGoalExceeded,
    ContributionBelowMinimum,
    AmountMustBePositive,
    CampaignGoalNotReached,
    ContributionNotFound,
    CampaignAlreadyExists,
    CampaignAlreadyCompleted,
    CannotTransferToSelf,
}

/// Where a campaign stands in its life.
#[derive(Clone, Copy, Debug, PartialEq, Eq, Structural)]
pub enum CampaignStatus {
    Active,
    Completed,
    Failed,
    Canceled,
}

/// A contributor's cumulative stake in one campaign.
#[derive(Clone, Copy, Debug, PartialEq, Eq, Structural)]
pub struct Contribution {
    pub amount: i128,
}

/// A funding round owned by one creator.
#[derive(Clone, Debug)]
pub struct Campaign {
    pub goal: i128,
    pub min_donation: i128,
    pub total_raised: i128,
    pub supporters: u32,
    pub status: CampaignStatus,
    /// Everyone who has contributed while the campaign was live, in order
    /// of their first contribution, without repetition.
    pub contributors: Vec<Address>,
}

/// A movement of `amount` tokens from `from` to `to`, to be carried out by
/// the token gateway of the host.
#[derive(Clone, Copy, Debug, PartialEq, Eq, Structural)]
pub struct Transfer {
    pub from: Address,
    pub to: Address,
    pub amount: i128,
}

} // verus!
