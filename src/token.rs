use vstd::prelude::*;

use crate::ledger::Ledger;
use crate::methods::token_transfer;
use crate::types::{Address, Error, Transfer};

verus! {

/// Checked transfers in the deployment's token.
pub struct TokenService;

impl TokenService {
    /// A transfer of a positive `amount` between two distinct principals.
    pub fn transfer(store: &Ledger, from: Address, to: Address, amount: i128) -> (r: Result<
        Transfer,
        Error,
    >)
        ensures
            r == if amount <= 0 {
                Err(Error::AmountMustBePositive)
            } else if from == to {
                Err(Error::CannotTransferToSelf)
            } else if store@.token is None {
                Err(Error::ContractNotInitialized)
            } else {
                Ok(Transfer { from, to, amount })
            },
    {
        if amount <= 0 {
            return Err(Error::AmountMustBePositive);
        }
        if from == to {
            return Err(Error::CannotTransferToSelf);
        }
        token_transfer(store, from, to, amount)
    }

    /// A checked transfer out of custody to `to`.
    pub fn transfer_from_contract(store: &Ledger, to: Address, amount: i128) -> (r: Result<
        Transfer,
        Error,
    >)
        ensures
            r == if amount <= 0 {
                Err(Error::AmountMustBePositive)
            } else if store@.contract == to {
                Err(Error::CannotTransferToSelf)
            } else if store@.token is None {
                Err(Error::ContractNotInitialized)
            } else {
                Ok(Transfer { from: store@.contract, to, amount })
            },
    {
        Self::transfer(store, store.contract_address(), to, amount)
    }

    /// A checked transfer from `from` into custody.
    pub fn transfer_to_contract(store: &Ledger, from: Address, amount: i128) -> (r: Result<
        Transfer,
        Error,
    >)
        ensures
            r == if amount <= 0 {
                Err(Error::AmountMustBePositive)
            } else if from == store@.contract {
                Err(Error::CannotTransferToSelf)
            } else if store@.token is None {
                Err(Error::ContractNotInitialized)
            } else {
                Ok(Transfer { from, to: store@.contract, amount })
            },
    {
        Self::transfer(store, from, store.contract_address(), amount)
    }
}

} // verus!
