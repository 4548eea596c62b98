use std::collections::HashMap;

use crowdfunding::{
    add_campaign, cancel_campaign, contribute, get_campaign, initialize, refund, token_transfer,
    withdraw, Address, CampaignStatus, CrowdfundingContract, Error, Ledger, TokenService, Transfer,
};

const CONTRACT: Address = Address { id: 1 };
const ADMIN: Address = Address { id: 2 };
const TOKEN: Address = Address { id: 3 };
const CREATOR: Address = Address { id: 10 };
const ALICE: Address = Address { id: 20 };
const BOB: Address = Address { id: 21 };
const CAROL: Address = Address { id: 22 };

fn deployment() -> CrowdfundingContract {
    CrowdfundingContract::new(CONTRACT, ADMIN, TOKEN)
}

fn with_campaign(goal: i128, min_donation: i128) -> CrowdfundingContract {
    let mut c = deployment();
    assert_eq!(c.create_campaign(CREATOR, goal, min_donation), Ok(()));
    c
}

fn apply(balances: &mut HashMap<u64, i128>, transfers: &[Transfer]) {
    for t in transfers {
        *balances.entry(t.from.id).or_insert(0) -= t.amount;
        *balances.entry(t.to.id).or_insert(0) += t.amount;
    }
}

fn balance(balances: &HashMap<u64, i128>, a: Address) -> i128 {
    *balances.get(&a.id).unwrap_or(&0)
}

#[test]
fn full_funding_round_then_withdraw() {
    let mut c = with_campaign(100, 10);
    assert_eq!(
        c.contribute(ALICE, CREATOR, 60),
        Ok(Transfer { from: ALICE, to: CONTRACT, amount: 60 })
    );
    assert_eq!(c.get_campaign(CREATOR).unwrap().total_raised, 60);
    assert_eq!(c.contribute(BOB, CREATOR, 50), Err(Error::CampaignGoalExceeded));
    assert_eq!(c.get_campaign(CREATOR).unwrap().total_raised, 60);
    assert_eq!(
        c.contribute(BOB, CREATOR, 40),
        Ok(Transfer { from: BOB, to: CONTRACT, amount: 40 })
    );
    assert_eq!(c.get_campaign(CREATOR).unwrap().total_raised, 100);
    assert_eq!(
        c.withdraw(CREATOR),
        Ok(Transfer { from: CONTRACT, to: CREATOR, amount: 100 })
    );
    assert_eq!(c.get_campaign(CREATOR).err(), Some(Error::CampaignNotFound));
}

#[test]
fn cancel_below_goal_refunds_every_contributor() {
    let mut c = with_campaign(100, 5);
    let mut balances = HashMap::new();
    balances.insert(ALICE.id, 50);
    balances.insert(BOB.id, 50);
    apply(&mut balances, &[c.contribute(ALICE, CREATOR, 10).unwrap()]);
    apply(&mut balances, &[c.contribute(BOB, CREATOR, 15).unwrap()]);
    apply(&mut balances, &[c.contribute(ALICE, CREATOR, 5).unwrap()]);
    assert_eq!(c.get_campaign(CREATOR).unwrap().total_raised, 30);
    assert_eq!(balance(&balances, CONTRACT), 30);
    let refunds = c.cancel_campaign(CREATOR).unwrap();
    assert_eq!(
        refunds,
        vec![
            Transfer { from: CONTRACT, to: ALICE, amount: 15 },
            Transfer { from: CONTRACT, to: BOB, amount: 15 },
        ]
    );
    apply(&mut balances, &refunds);
    assert_eq!(balance(&balances, ALICE), 50);
    assert_eq!(balance(&balances, BOB), 50);
    assert_eq!(balance(&balances, CONTRACT), 0);
    assert_eq!(c.get_campaign(CREATOR).err(), Some(Error::CampaignNotFound));
    assert!(!c.ledger().has_contribution(CREATOR, ALICE));
    assert!(!c.ledger().has_contribution(CREATOR, BOB));
}

#[test]
fn cancel_without_funds_moves_nothing() {
    let mut c = with_campaign(100, 5);
    assert_eq!(c.cancel_campaign(CREATOR), Ok(vec![]));
    assert_eq!(c.get_campaign(CREATOR).err(), Some(Error::CampaignNotFound));
}

#[test]
fn cancel_skips_refunded_contributors() {
    let mut c = with_campaign(100, 5);
    c.contribute(ALICE, CREATOR, 10).unwrap();
    c.contribute(BOB, CREATOR, 20).unwrap();
    c.refund(ALICE, CREATOR).unwrap();
    assert_eq!(
        c.cancel_campaign(CREATOR),
        Ok(vec![Transfer { from: CONTRACT, to: BOB, amount: 20 }])
    );
}

#[test]
fn cancel_of_funded_campaign_is_refused() {
    let mut c = with_campaign(50, 5);
    c.contribute(ALICE, CREATOR, 50).unwrap();
    assert_eq!(c.cancel_campaign(CREATOR), Err(Error::CampaignAlreadyCompleted));
    assert_eq!(c.get_campaign(CREATOR).unwrap().total_raised, 50);
}

#[test]
fn contributions_add_up_and_stay_within_goal() {
    let mut c = with_campaign(100, 10);
    let mut accepted = 0;
    for (who, amount) in [(ALICE, 30), (BOB, 5), (CAROL, 80), (BOB, 40), (ALICE, -1), (CAROL, 30), (CAROL, 1)] {
        if c.contribute(who, CREATOR, amount).is_ok() {
            accepted += amount;
        }
        let campaign = c.get_campaign(CREATOR).unwrap();
        assert_eq!(campaign.total_raised, accepted);
        assert!(campaign.total_raised <= campaign.goal);
    }
    assert_eq!(accepted, 100);
}

#[test]
fn refund_after_contribute_restores_balance() {
    let mut c = with_campaign(100, 10);
    let mut balances = HashMap::new();
    balances.insert(ALICE.id, 70);
    let paid = c.contribute(ALICE, CREATOR, 25).unwrap();
    apply(&mut balances, &[paid]);
    assert_eq!(balance(&balances, ALICE), 45);
    let back = c.refund(ALICE, CREATOR).unwrap();
    assert_eq!(back, Transfer { from: CONTRACT, to: ALICE, amount: 25 });
    apply(&mut balances, &[back]);
    assert_eq!(balance(&balances, ALICE), 70);
    assert!(!c.ledger().has_contribution(CREATOR, ALICE));
    assert_eq!(c.get_campaign(CREATOR).unwrap().total_raised, 0);
    assert_eq!(c.get_campaign(CREATOR).unwrap().supporters, 0);
    assert_eq!(c.refund(ALICE, CREATOR), Err(Error::ContributionNotFound));
}

#[test]
fn withdraw_needs_goal_exactly() {
    let mut c = with_campaign(100, 1);
    c.contribute(ALICE, CREATOR, 99).unwrap();
    assert_eq!(c.withdraw(CREATOR), Err(Error::CampaignGoalNotReached));
    assert_eq!(c.get_campaign(CREATOR).unwrap().total_raised, 99);
    c.contribute(BOB, CREATOR, 1).unwrap();
    assert_eq!(
        c.withdraw(CREATOR),
        Ok(Transfer { from: CONTRACT, to: CREATOR, amount: 100 })
    );
    assert_eq!(c.withdraw(CREATOR), Err(Error::CampaignNotFound));
}

#[test]
fn below_minimum_changes_nothing() {
    let mut c = with_campaign(100, 10);
    c.contribute(ALICE, CREATOR, 20).unwrap();
    assert_eq!(c.contribute(BOB, CREATOR, 9), Err(Error::ContributionBelowMinimum));
    assert_eq!(c.contribute(BOB, CREATOR, 0), Err(Error::ContributionBelowMinimum));
    let campaign = c.get_campaign(CREATOR).unwrap();
    assert_eq!(campaign.total_raised, 20);
    assert_eq!(campaign.supporters, 1);
    assert_eq!(campaign.contributors, vec![ALICE]);
}

#[test]
fn second_campaign_for_creator_is_refused() {
    let mut c = with_campaign(100, 10);
    c.contribute(ALICE, CREATOR, 15).unwrap();
    assert_eq!(c.create_campaign(CREATOR, 500, 1), Err(Error::CampaignAlreadyExists));
    let campaign = c.get_campaign(CREATOR).unwrap();
    assert_eq!(campaign.goal, 100);
    assert_eq!(campaign.min_donation, 10);
    assert_eq!(campaign.total_raised, 15);
    assert_eq!(campaign.supporters, 1);
    assert_eq!(campaign.status, CampaignStatus::Active);
}

#[test]
fn fresh_campaign_is_empty_and_active() {
    let c = with_campaign(100, 10);
    let campaign = c.get_campaign(CREATOR).unwrap();
    assert_eq!(campaign.goal, 100);
    assert_eq!(campaign.min_donation, 10);
    assert_eq!(campaign.total_raised, 0);
    assert_eq!(campaign.supporters, 0);
    assert_eq!(campaign.status, CampaignStatus::Active);
    assert!(campaign.contributors.is_empty());
}

#[test]
fn repeated_contributions_accumulate_one_supporter() {
    let mut c = with_campaign(100, 1);
    c.contribute(ALICE, CREATOR, 10).unwrap();
    c.contribute(ALICE, CREATOR, 15).unwrap();
    c.contribute(BOB, CREATOR, 5).unwrap();
    let campaign = c.get_campaign(CREATOR).unwrap();
    assert_eq!(campaign.supporters, 2);
    assert_eq!(campaign.contributors, vec![ALICE, BOB]);
    assert_eq!(c.ledger().get_contribution(CREATOR, ALICE), Ok(25));
    assert_eq!(c.refund(ALICE, CREATOR), Ok(Transfer { from: CONTRACT, to: ALICE, amount: 25 }));
    assert_eq!(c.get_campaign(CREATOR).unwrap().supporters, 1);
}

#[test]
fn zero_contribution_is_accepted_with_zero_minimum() {
    let mut c = with_campaign(100, 0);
    assert_eq!(c.contribute(ALICE, CREATOR, 0), Ok(Transfer { from: ALICE, to: CONTRACT, amount: 0 }));
    assert_eq!(c.get_campaign(CREATOR).unwrap().supporters, 1);
}

#[test]
fn negative_contribution_is_refused() {
    let mut c = with_campaign(100, 10);
    assert_eq!(c.contribute(ALICE, CREATOR, -5), Err(Error::AmountMustBePositive));
}

#[test]
fn contribution_to_missing_campaign_is_refused() {
    let mut c = deployment();
    assert_eq!(c.contribute(ALICE, CREATOR, 5), Err(Error::CampaignNotFound));
    assert_eq!(c.refund(ALICE, CREATOR), Err(Error::CampaignNotFound));
    assert_eq!(c.cancel_campaign(CREATOR), Err(Error::CampaignNotFound));
}

#[test]
fn goal_must_be_positive() {
    let mut c = deployment();
    assert_eq!(c.create_campaign(CREATOR, 0, 1), Err(Error::AmountMustBePositive));
    assert_eq!(c.create_campaign(CREATOR, -3, 1), Err(Error::AmountMustBePositive));
    assert_eq!(c.get_campaign(CREATOR).err(), Some(Error::CampaignNotFound));
}

#[test]
fn largest_goal_is_reachable() {
    let mut c = with_campaign(i128::MAX, 1);
    c.contribute(ALICE, CREATOR, i128::MAX - 1).unwrap();
    assert_eq!(c.contribute(BOB, CREATOR, 2), Err(Error::CampaignGoalExceeded));
    c.contribute(BOB, CREATOR, 1).unwrap();
    assert_eq!(
        c.withdraw(CREATOR),
        Ok(Transfer { from: CONTRACT, to: CREATOR, amount: i128::MAX })
    );
}

#[test]
fn initialize_only_once() {
    let mut ledger = Ledger::new(CONTRACT);
    assert_eq!(ledger.get_admin(), Err(Error::ContractNotInitialized));
    assert_eq!(initialize(&mut ledger, ADMIN, TOKEN), Ok(()));
    assert_eq!(initialize(&mut ledger, BOB, BOB), Err(Error::ContractInitialized));
    assert_eq!(ledger.get_admin(), Ok(ADMIN));
    assert_eq!(ledger.get_token(), Ok(TOKEN));
}

#[test]
fn operations_before_initialize_are_refused() {
    let mut ledger = Ledger::new(CONTRACT);
    assert_eq!(add_campaign(&mut ledger, CREATOR, 100, 1), Err(Error::ContractNotInitialized));
    assert_eq!(contribute(&mut ledger, ALICE, CREATOR, 5), Err(Error::ContractNotInitialized));
    assert_eq!(withdraw(&mut ledger, CREATOR), Err(Error::ContractNotInitialized));
    assert_eq!(refund(&mut ledger, ALICE, CREATOR), Err(Error::ContractNotInitialized));
    assert_eq!(cancel_campaign(&mut ledger, CREATOR), Err(Error::ContractNotInitialized));
    assert_eq!(token_transfer(&ledger, ALICE, BOB, 5), Err(Error::ContractNotInitialized));
}

#[test]
fn free_functions_drive_the_ledger() {
    let mut ledger = Ledger::new(CONTRACT);
    initialize(&mut ledger, ADMIN, TOKEN).unwrap();
    add_campaign(&mut ledger, CREATOR, 40, 10).unwrap();
    assert_eq!(
        contribute(&mut ledger, ALICE, CREATOR, 40),
        Ok(Transfer { from: ALICE, to: CONTRACT, amount: 40 })
    );
    assert_eq!(get_campaign(&ledger, CREATOR).unwrap().total_raised, 40);
    assert_eq!(ledger.get_all_contributors(CREATOR), Ok(vec![ALICE]));
    assert_eq!(
        withdraw(&mut ledger, CREATOR),
        Ok(Transfer { from: CONTRACT, to: CREATOR, amount: 40 })
    );
    assert_eq!(ledger.get_contribution(CREATOR, ALICE), Err(Error::ContributionNotFound));
}

#[test]
fn new_campaign_after_withdraw_starts_clean() {
    let mut c = with_campaign(10, 1);
    c.contribute(ALICE, CREATOR, 10).unwrap();
    c.withdraw(CREATOR).unwrap();
    assert_eq!(c.create_campaign(CREATOR, 20, 1), Ok(()));
    assert_eq!(c.refund(ALICE, CREATOR), Err(Error::ContributionNotFound));
}

#[test]
fn token_service_checks_amount_and_parties() {
    let c = deployment();
    let ledger = c.ledger();
    assert_eq!(TokenService::transfer(ledger, ALICE, BOB, 0), Err(Error::AmountMustBePositive));
    assert_eq!(TokenService::transfer(ledger, ALICE, ALICE, 5), Err(Error::CannotTransferToSelf));
    assert_eq!(
        TokenService::transfer(ledger, ALICE, BOB, 5),
        Ok(Transfer { from: ALICE, to: BOB, amount: 5 })
    );
    assert_eq!(
        TokenService::transfer_from_contract(ledger, BOB, 7),
        Ok(Transfer { from: CONTRACT, to: BOB, amount: 7 })
    );
    assert_eq!(
        TokenService::transfer_to_contract(ledger, ALICE, 3),
        Ok(Transfer { from: ALICE, to: CONTRACT, amount: 3 })
    );
    assert_eq!(
        TokenService::transfer_from_contract(ledger, CONTRACT, 3),
        Err(Error::CannotTransferToSelf)
    );
    let empty = Ledger::new(CONTRACT);
    assert_eq!(TokenService::transfer(&empty, ALICE, BOB, 5), Err(Error::ContractNotInitialized));
}
