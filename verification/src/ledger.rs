//! The registry of accounts, keyed by account number.
//!
//! The registry's model is a `Map<u32, UserView>`. The spec functions of
//! this module say what each operation reports and what it leaves behind,
//! and the methods of [`Wallet`] are proved to do exactly that.

use crate::account::{Bank, Status, User, UserView};
use std::collections::hash_map::Entry;
use std::collections::HashMap;
use vstd::prelude::*;
use vstd::std_specs::hash::spec_values_iter;
use vstd::std_specs::iter::IteratorSpec;

verus! {

/// The model of a registry: the accounts by their numbers.
pub type Accounts = Map<u32, UserView>;

/// Every account is filed under its own number.
pub open spec fn keyed_by_number(accounts: Accounts) -> bool {
    forall|n: u32| #[trigger] accounts.contains_key(n) ==> accounts[n].account_number == n
}

/// The account filed under `n`, if there is one.
pub open spec fn lookup(accounts: Accounts, n: u32) -> Option<UserView> {
    if accounts.contains_key(n) {
        Some(accounts[n])
    } else {
        None
    }
}

/// The balance of the account filed under `n`, if there is one.
pub open spec fn balance_at(accounts: Accounts, n: u32) -> Option<nat> {
    match lookup(accounts, n) {
        Some(account) => Some(account.balance),
        None => None,
    }
}

/// The registry with `account` filed under its number, in place of any
/// account that was filed there before.
pub open spec fn with_account(accounts: Accounts, account: UserView) -> Accounts {
    accounts.insert(account.account_number, account)
}

/// What an operation that only needs the account `n` to exist reports.
pub open spec fn presence_status(accounts: Accounts, n: u32) -> Status {
    if accounts.contains_key(n) {
        Status::Success
    } else {
        Status::AccountNotFound
    }
}

/// The registry after a deposit of `amount` into account `n`.
pub open spec fn after_deposit(accounts: Accounts, n: u32, amount: nat) -> Accounts {
    if accounts.contains_key(n) {
        accounts.insert(n, accounts[n].credited(amount))
    } else {
        accounts
    }
}

/// What a withdrawal of `amount` from account `n` reports.
pub open spec fn withdraw_status(accounts: Accounts, n: u32, amount: nat) -> Status {
    if accounts.contains_key(n) {
        accounts[n].debit_status(amount)
    } else {
        Status::AccountNotFound
    }
}

/// The registry after a withdrawal of `amount` from account `n`.
pub open spec fn after_withdraw(accounts: Accounts, n: u32, amount: nat) -> Accounts {
    if accounts.contains_key(n) {
        accounts.insert(n, accounts[n].debited(amount))
    } else {
        accounts
    }
}

/// The registry after an update of account `n`.
pub open spec fn after_update(
    accounts: Accounts,
    n: u32,
    name: Option<Seq<char>>,
    bank: Option<Bank>,
) -> Accounts {
    if accounts.contains_key(n) {
        accounts.insert(n, accounts[n].revised(name, bank))
    } else {
        accounts
    }
}

/// The registry without account `n`.
pub open spec fn after_remove(accounts: Accounts, n: u32) -> Accounts {
    accounts.remove(n)
}

/// The view of an optional name.
pub open spec fn name_view(name: Option<String>) -> Option<Seq<char>> {
    match name {
        Some(s) => Some(s@),
        None => None,
    }
}

/// The account numbers of a list of accounts, in the list's order.
pub open spec fn numbers_of(users: Seq<&User>) -> Seq<u32> {
    users.map_values(|user: &User| user.account_number)
}

/// A registry of accounts. It owns its accounts and files each under its
/// account number.
#[derive(Debug)]
pub struct Wallet {
    wallet_details: HashMap<u32, User>,
}

impl View for Wallet {
    type V = Accounts;

    closed spec fn view(&self) -> Accounts {
        self.wallet_details@.map_values(|user: User| user@)
    }
}

impl Default for Wallet {
    /// An empty registry.
    fn default() -> (wallet: Wallet)
        ensures
            wallet.wf(),
            wallet@ == Map::<u32, UserView>::empty(),
    {
        Wallet::new()
    }
}

impl Wallet {
    /// The registry's invariant: every account is filed under its own
    /// number. `new` establishes it and every method keeps it.
    pub open spec fn wf(&self) -> bool {
        keyed_by_number(self@)
    }

    /// An empty registry.
    pub fn new() -> (wallet: Wallet)
        ensures
            wallet.wf(),
            wallet@ == Map::<u32, UserView>::empty(),
    {
        let wallet = Wallet { wallet_details: HashMap::new() };
        assert(wallet@ =~= Map::<u32, UserView>::empty());
        wallet
    }

    /// Files `user` under its account number. An account that was filed
    /// under that number before is replaced.
    pub fn add_user(&mut self, user: User)
        requires
            old(self).wf(),
        ensures
            final(self).wf(),
            final(self)@ == with_account(old(self)@, user@),
    {
        broadcast use vstd::std_specs::hash::group_hash_axioms;

        self.wallet_details.insert(user.account_number, user);
        assert(self@ =~= with_account(old(self)@, user@));
    }

    /// Adds `amount` to the balance of account `account_number`. Reports
    /// `AccountNotFound`, changing nothing, if there is no such account.
    ///
    /// The new balance has to fit the balance's 64 bits.
    pub fn deposit_to(&mut self, account_number: u32, amount: u64) -> (status: Status)
        requires
            old(self).wf(),
            old(self)@.contains_key(account_number) ==> old(self)@[account_number].balance + amount
                <= u64::MAX,
        ensures
            final(self).wf(),
            status == presence_status(old(self)@, account_number),
            final(self)@ == after_deposit(old(self)@, account_number, amount as nat),
    {
        broadcast use vstd::std_specs::hash::group_hash_axioms;

        match self.wallet_details.entry(account_number) {
            Entry::Occupied(entry) => {
                let user = entry.into_mut();
                user.deposit(amount);
                assert(self@ =~= after_deposit(old(self)@, account_number, amount as nat));
                Status::Success
            },
            Entry::Vacant(_) => {
                assert(self@ =~= old(self)@);
                Status::AccountNotFound
            },
        }
    }

    /// Takes `amount` from the balance of account `account_number` if the
    /// balance covers it. Reports `InsufficientFunds` if it does not and
    /// `AccountNotFound` if there is no such account, changing nothing
    /// either way.
    pub fn withdraw_from(&mut self, account_number: u32, amount: u64) -> (status: Status)
        requires
            old(self).wf(),
        ensures
            final(self).wf(),
            status == withdraw_status(old(self)@, account_number, amount as nat),
            final(self)@ == after_withdraw(old(self)@, account_number, amount as nat),
    {
        broadcast use vstd::std_specs::hash::group_hash_axioms;

        match self.wallet_details.entry(account_number) {
            Entry::Occupied(entry) => {
                let user = entry.into_mut();
                let status = user.withdraw(amount);
                assert(self@ =~= after_withdraw(old(self)@, account_number, amount as nat));
                status
            },
            Entry::Vacant(_) => {
                assert(self@ =~= old(self)@);
                Status::AccountNotFound
            },
        }
    }

    /// The balance of account `account_number`, or `None` if there is no
    /// such account.
    pub fn balance_of(&self, account_number: u32) -> (balance: Option<u64>)
        ensures
            match balance {
                Some(b) => balance_at(self@, account_number) == Some(b as nat),
                None => balance_at(self@, account_number).is_none(),
            },
    {
        broadcast use vstd::std_specs::hash::group_hash_axioms;

        match self.wallet_details.get(&account_number) {
            Some(user) => Some(user.balance),
            None => None,
        }
    }

    /// The account filed under `account_number`, or `None` if there is no
    /// such account.
    pub fn get_user(&self, account_number: u32) -> (found: Option<&User>)
        ensures
            match found {
                Some(user) => lookup(self@, account_number) == Some(user@),
                None => lookup(self@, account_number).is_none(),
            },
    {
        broadcast use vstd::std_specs::hash::group_hash_axioms;

        self.wallet_details.get(&account_number)
    }

    /// All accounts, in no particular order: every entry of the list is an
    /// account of the registry, and every account of the registry is in the
    /// list once.
    pub fn list_all_users(&self) -> (users: Vec<&User>)
        requires
            self.wf(),
        ensures
            self@.dom().finite(),
            users@.len() == self@.len(),
            forall|i: int|
                0 <= i < users@.len() ==> lookup(self@, (#[trigger] users@[i]).account_number)
                    == Some(users@[i]@),
            numbers_of(users@).to_set() == self@.dom(),
            numbers_of(users@).no_duplicates(),
    {
        broadcast use vstd::std_specs::hash::group_hash_axioms;

        let ghost stored = self.wallet_details@;
        let ghost walk = spec_values_iter(&self.wallet_details).remaining();
        let mut users: Vec<&User> = Vec::new();
        for user in it: self.wallet_details.values()
            invariant
                it.seq() == walk,
                users@.len() == it.index(),
                forall|i: int| 0 <= i < users@.len() ==> users@[i] == it.seq()[i],
        {
            users.push(user);
        }
        proof {
            assert(self@.dom() =~= stored.dom());
            assert forall|i: int| 0 <= i < users@.len() implies lookup(
                self@,
                (#[trigger] users@[i]).account_number,
            ) == Some(users@[i]@) by {
                assert(walk.unref()[i] == *users@[i]);
                assert(stored.values().contains(*users@[i]));
                let n = choose|n: u32| stored.contains_key(n) && stored[n] == *users@[i];
                assert(self@.contains_key(n));
            }
            let numbers = numbers_of(users@);
            assert forall|n: u32| self@.contains_key(n) implies numbers.to_set().contains(n) by {
                assert(stored.values().contains(stored[n]));
                let i = choose|i: int| 0 <= i < walk.unref().len() && walk.unref()[i] == stored[n];
                assert(numbers[i] == n);
            }
            assert forall|n: u32| numbers.to_set().contains(n) implies self@.contains_key(n) by {
                let i = choose|i: int| 0 <= i < numbers.len() && numbers[i] == n;
                assert(lookup(self@, users@[i].account_number) == Some(users@[i]@));
            }
            assert(numbers.to_set() =~= self@.dom());
            numbers.lemma_no_dup_set_cardinality();
        }
        users
    }

    /// Overwrites the name and the bank of account `account_number`, each
    /// where it is given; a field that is omitted is left as it is. Reports
    /// `AccountNotFound`, changing nothing, if there is no such account.
    pub fn update_user(
        &mut self,
        account_number: u32,
        name: Option<String>,
        bank: Option<Bank>,
    ) -> (status: Status)
        requires
            old(self).wf(),
        ensures
            final(self).wf(),
            status == presence_status(old(self)@, account_number),
            final(self)@ == after_update(old(self)@, account_number, name_view(name), bank),
    {
        broadcast use vstd::std_specs::hash::group_hash_axioms;

        match self.wallet_details.entry(account_number) {
            Entry::Occupied(entry) => {
                let user = entry.into_mut();
                if let Some(new_name) = name {
                    user.name = new_name;
                }
                if let Some(new_bank) = bank {
                    user.bank = new_bank;
                }
                assert(self@ =~= after_update(
                    old(self)@,
                    account_number,
                    name_view(name),
                    bank,
                ));
                Status::Success
            },
            Entry::Vacant(_) => {
                assert(self@ =~= old(self)@);
                Status::AccountNotFound
            },
        }
    }

    /// Removes account `account_number`, whose number is then free again.
    /// Reports `AccountNotFound` if there was no such account.
    pub fn remove_user(&mut self, account_number: u32) -> (status: Status)
        requires
            old(self).wf(),
        ensures
            final(self).wf(),
            status == presence_status(old(self)@, account_number),
            final(self)@ == after_remove(old(self)@, account_number),
    {
        broadcast use vstd::std_specs::hash::group_hash_axioms;

        let removed = self.wallet_details.remove(&account_number);
        assert(self@ =~= after_remove(old(self)@, account_number));
        match removed {
            Some(_) => Status::Success,
            None => Status::AccountNotFound,
        }
    }
}

} // verus!
