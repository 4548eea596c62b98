//! A fund-custody ledger for fundraising campaigns.
//!
//! A creator registers one campaign with a goal and a minimum contribution;
//! contributors pledge tokens up to the goal; the pooled funds later go to the
//! creator (when the goal is met exactly) or back to the contributors (on a
//! refund or a cancellation). Every operation is a verified transition of the
//! ledger that also names the token transfers the host must carry out.

mod types;
pub mod model;
mod proofs;
mod ledger;
mod methods;
mod token;
mod contract;
pub mod laws;

pub use types::{Address, Campaign, CampaignStatus, Contribution, Error, Transfer};
pub use model::{CampaignView, LedgerView};
pub use ledger::Ledger;
pub use methods::{
    add_campaign, cancel_campaign, contribute, get_campaign, initialize, refund, token_transfer,
    withdraw,
};
pub use token::TokenService;
pub use contract::CrowdfundingContract;
