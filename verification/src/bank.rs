//! A toy bank: accounts with a balance, a holder and an id, collected
//! in a growable list.

use vstd::prelude::*;

verus! {

/// One account. The balance starts at zero and is changed only through
/// the functions of this module.
#[derive(Debug)]
pub struct Account {
    pub balance: i32,
    pub holder: String,
    pub id: u32,
}

impl Account {
    /// A fresh account for `holder` with the given `id` and a zero balance.
    pub fn new(id: u32, holder: String) -> (account: Account)
        ensures
            account.balance == 0,
            account.holder == holder,
            account.id == id,
    {
        Account { balance: 0, holder, id }
    }
}

/// A bank holds its accounts in insertion order.
#[derive(Debug)]
pub struct Bank {
    pub accounts: Vec<Account>,
}

impl Bank {
    /// A bank with no accounts.
    pub fn new() -> (bank: Bank)
        ensures
            bank.accounts@.len() == 0,
    {
        Bank { accounts: Vec::new() }
    }
}

/// Resets the account's balance to the demonstration value 10,
/// leaving holder and id unchanged.
pub fn change_account(account: &mut Account)
    ensures
        final(account).balance == 10,
        final(account).holder == old(account).holder,
        final(account).id == old(account).id,
{
    account.balance = 10;
}

} // verus!
