//! An in-memory registry of user accounts: accounts are created, read,
//! updated and deleted by account number, and money is deposited into and
//! withdrawn from them.
//!
//! Every operation is stated over a mathematical model: an account is a
//! [`UserView`], a registry a `Map<u32, UserView>`. The module [`ledger`]
//! says over that model what each operation reports and leaves behind, and
//! the module [`laws`] proves what holds of the operations together.

pub mod account;
pub mod laws;
pub mod ledger;

pub use account::{Bank, Status, User, UserView};
pub use ledger::Wallet;
