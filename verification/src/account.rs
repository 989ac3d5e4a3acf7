//! A single user's account: identity, issuing bank and balance.

use vstd::prelude::*;

verus! {

/// The issuer of an account.
#[derive(Debug, Clone, Copy, PartialEq, Eq, Structural)]
pub enum Bank {
    Opay,
    PalmPay,
    Kuda,
    Moniepoint,
}

/// The outcome of an operation on an account or on the registry.
#[derive(Debug, Clone, Copy, PartialEq, Eq, Structural)]
pub enum Status {
    Success,
    InsufficientFunds,
    AccountNotFound,
}

/// One account. The balance is held in minor currency units.
#[derive(Debug, Clone)]
pub struct User {
    pub name: String,
    pub bank: Bank,
    pub account_number: u32,
    pub balance: u64,
}

/// What an account is, mathematically: its name as a sequence of characters
/// and its balance as a natural number without an upper bound.
pub ghost struct UserView {
    pub name: Seq<char>,
    pub bank: Bank,
    pub account_number: u32,
    pub balance: nat,
}

impl UserView {
    /// The account with `amount` added to its balance.
    pub open spec fn credited(self, amount: nat) -> UserView {
        UserView { balance: self.balance + amount, ..self }
    }

    /// Whether the balance covers a withdrawal of `amount`.
    pub open spec fn covers(self, amount: nat) -> bool {
        amount <= self.balance
    }

    /// The account with `amount` taken from its balance, where the balance
    /// covers it; the account unchanged where it does not.
    pub open spec fn debited(self, amount: nat) -> UserView {
        if self.covers(amount) {
            UserView { balance: (self.balance - amount) as nat, ..self }
        } else {
            self
        }
    }

    /// What a withdrawal of `amount` from this account reports.
    pub open spec fn debit_status(self, amount: nat) -> Status {
        if self.covers(amount) {
            Status::Success
        } else {
            Status::InsufficientFunds
        }
    }

    /// The account after an update: each field that is given replaces the
    /// stored one, each that is omitted stays.
    pub open spec fn revised(self, name: Option<Seq<char>>, bank: Option<Bank>) -> UserView {
        UserView {
            name: match name {
                Some(n) => n,
                None => self.name,
            },
            bank: match bank {
                Some(b) => b,
                None => self.bank,
            },
            ..self
        }
    }
}

impl View for User {
    type V = UserView;

    open spec fn view(&self) -> UserView {
        UserView {
            name: self.name@,
            bank: self.bank,
            account_number: self.account_number,
            balance: self.balance as nat,
        }
    }
}

impl User {
    /// An account with exactly the given fields.
    pub fn new(name: String, bank: Bank, account_number: u32, balance: u64) -> (user: User)
        ensures
            user@ == (UserView { name: name@, bank, account_number, balance: balance as nat }),
    {
        User { name, bank, account_number, balance }
    }

    /// Adds `amount` to the balance and returns the new balance.
    ///
    /// The sum has to fit the balance's 64 bits.
    pub fn deposit(&mut self, amount: u64) -> (balance: u64)
        requires
            old(self).balance + amount <= u64::MAX,
        ensures
            final(self)@ == old(self)@.credited(amount as nat),
            balance == old(self).balance + amount,
    {
        self.balance = self.balance + amount;
        self.balance
    }

    /// Takes `amount` from the balance if the balance covers it, and reports
    /// `InsufficientFunds`, changing nothing, if it does not.
    pub fn withdraw(&mut self, amount: u64) -> (status: Status)
        ensures
            status == old(self)@.debit_status(amount as nat),
            final(self)@ == old(self)@.debited(amount as nat),
    {
        if self.balance < amount {
            Status::InsufficientFunds
        } else {
            self.balance = self.balance - amount;
            Status::Success
        }
    }
}

} // verus!
