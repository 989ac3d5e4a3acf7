//! Laws that tie the registry's operations together, stated over the model
//! in which the methods of [`crate::ledger::Wallet`] are specified.

use crate::account::{Bank, Status, UserView};
use crate::ledger::{
    after_deposit, after_remove, after_update, after_withdraw, balance_at, keyed_by_number, lookup,
    presence_status, withdraw_status, with_account, Accounts,
};
use vstd::prelude::*;

verus! {

/// An account that is added is found under its number, whatever was filed
/// there before, and every other number holds what it held.
pub proof fn law_last_add_wins(accounts: Accounts, account: UserView, other: u32)
    requires
        other != account.account_number,
    ensures
        lookup(with_account(accounts, account), account.account_number) == Some(account),
        lookup(with_account(accounts, account), other) == lookup(accounts, other),
{
}

/// A deposit into an existing account reports `Success`, and the account's
/// balance is then the old balance plus the amount.
pub proof fn law_deposit_adds(accounts: Accounts, n: u32, amount: nat)
    requires
        accounts.contains_key(n),
    ensures
        presence_status(accounts, n) == Status::Success,
        balance_at(after_deposit(accounts, n, amount), n) == Some(accounts[n].balance + amount),
{
}

/// A withdrawal of more than the balance reports `InsufficientFunds` and
/// leaves the balance, and the whole registry, as it was.
pub proof fn law_withdraw_beyond_balance(accounts: Accounts, n: u32, amount: nat)
    requires
        accounts.contains_key(n),
        amount > accounts[n].balance,
    ensures
        withdraw_status(accounts, n, amount) == Status::InsufficientFunds,
        balance_at(after_withdraw(accounts, n, amount), n) == Some(accounts[n].balance),
        after_withdraw(accounts, n, amount) == accounts,
{
    assert(after_withdraw(accounts, n, amount) =~= accounts);
}

/// A withdrawal of no more than the balance reports `Success`, and the
/// account's balance is then the old balance less the amount.
pub proof fn law_withdraw_within_balance(accounts: Accounts, n: u32, amount: nat)
    requires
        accounts.contains_key(n),
        amount <= accounts[n].balance,
    ensures
        withdraw_status(accounts, n, amount) == Status::Success,
        balance_at(after_withdraw(accounts, n, amount), n) == Some(
            (accounts[n].balance - amount) as nat,
        ),
{
}

/// Every operation on an account number that the registry does not hold
/// reports `AccountNotFound`, or no account, and leaves the registry as it
/// was.
pub proof fn law_absent_account(
    accounts: Accounts,
    n: u32,
    amount: nat,
    name: Option<Seq<char>>,
    bank: Option<Bank>,
)
    requires
        !accounts.contains_key(n),
    ensures
        presence_status(accounts, n) == Status::AccountNotFound,
        withdraw_status(accounts, n, amount) == Status::AccountNotFound,
        lookup(accounts, n).is_none(),
        balance_at(accounts, n).is_none(),
        after_deposit(accounts, n, amount) == accounts,
        after_withdraw(accounts, n, amount) == accounts,
        after_update(accounts, n, name, bank) == accounts,
        after_remove(accounts, n) == accounts,
{
    assert(after_remove(accounts, n) =~= accounts);
}

/// Once an account is removed it cannot be found, and to remove it again
/// reports `AccountNotFound`.
pub proof fn law_removed_is_absent(accounts: Accounts, n: u32)
    requires
        presence_status(accounts, n) == Status::Success,
    ensures
        lookup(after_remove(accounts, n), n).is_none(),
        presence_status(after_remove(accounts, n), n) == Status::AccountNotFound,
        after_remove(after_remove(accounts, n), n) == after_remove(accounts, n),
{
    assert(after_remove(after_remove(accounts, n), n) =~= after_remove(accounts, n));
}

/// An update that gives a name and no bank changes the name and nothing
/// else: not the account's bank, number or balance, and no other account.
pub proof fn law_update_name_only(accounts: Accounts, n: u32, name: Seq<char>)
    requires
        accounts.contains_key(n),
    ensures
        presence_status(accounts, n) == Status::Success,
        after_update(accounts, n, Some(name), None)[n].name == name,
        after_update(accounts, n, Some(name), None)[n].bank == accounts[n].bank,
        after_update(accounts, n, Some(name), None) == accounts.insert(
            n,
            UserView { name, ..accounts[n] },
        ),
{
}

/// An update that gives a bank and no name changes the bank and nothing
/// else: not the account's name, number or balance, and no other account.
pub proof fn law_update_bank_only(accounts: Accounts, n: u32, bank: Bank)
    requires
        accounts.contains_key(n),
    ensures
        presence_status(accounts, n) == Status::Success,
        after_update(accounts, n, None, Some(bank))[n].bank == bank,
        after_update(accounts, n, None, Some(bank))[n].name == accounts[n].name,
        after_update(accounts, n, None, Some(bank)) == accounts.insert(
            n,
            UserView { bank, ..accounts[n] },
        ),
{
}

/// An operation on one account leaves every other account as it was.
pub proof fn law_other_accounts_untouched(
    accounts: Accounts,
    n: u32,
    other: u32,
    amount: nat,
    name: Option<Seq<char>>,
    bank: Option<Bank>,
)
    requires
        other != n,
    ensures
        lookup(after_deposit(accounts, n, amount), other) == lookup(accounts, other),
        lookup(after_withdraw(accounts, n, amount), other) == lookup(accounts, other),
        lookup(after_update(accounts, n, name, bank), other) == lookup(accounts, other),
        lookup(after_remove(accounts, n), other) == lookup(accounts, other),
{
}

/// No operation breaks the registry's invariant: where every account is
/// filed under its own number before, every account is so after.
pub proof fn law_filing_is_kept(
    accounts: Accounts,
    account: UserView,
    n: u32,
    amount: nat,
    name: Option<Seq<char>>,
    bank: Option<Bank>,
)
    requires
        keyed_by_number(accounts),
    ensures
        keyed_by_number(with_account(accounts, account)),
        keyed_by_number(after_deposit(accounts, n, amount)),
        keyed_by_number(after_withdraw(accounts, n, amount)),
        keyed_by_number(after_update(accounts, n, name, bank)),
        keyed_by_number(after_remove(accounts, n)),
{
}

} // verus!
