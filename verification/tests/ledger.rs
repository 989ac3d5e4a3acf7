use wallet::{Bank, Status, User, Wallet};

fn three_accounts() -> Wallet {
    let mut wallet = Wallet::new();
    wallet.add_user(User::new("Uche".to_string(), Bank::Kuda, 1001, 5_000));
    wallet.add_user(User::new("Ada".to_string(), Bank::Opay, 1002, 8_500));
    wallet.add_user(User::new("Chidi".to_string(), Bank::PalmPay, 1003, 10_000));
    wallet
}

fn sorted_numbers(wallet: &Wallet) -> Vec<u32> {
    let mut numbers: Vec<u32> = Vec::new();
    for user in wallet.list_all_users() {
        numbers.push(user.account_number);
    }
    numbers.sort();
    numbers
}

#[test]
fn new_registry_is_empty() {
    let wallet = Wallet::new();
    assert!(wallet.list_all_users().is_empty());
    assert!(wallet.get_user(1001).is_none());
    assert_eq!(wallet.balance_of(1001), None);
}

#[test]
fn default_registry_is_empty() {
    let wallet = Wallet::default();
    assert!(wallet.list_all_users().is_empty());
    assert!(wallet.get_user(0).is_none());
}

#[test]
fn added_account_is_found_under_its_number() {
    let wallet = three_accounts();
    let user = wallet.get_user(1001).unwrap();
    assert_eq!(user.name, "Uche");
    assert_eq!(user.bank, Bank::Kuda);
    assert_eq!(user.account_number, 1001);
    assert_eq!(user.balance, 5_000);
    assert_eq!(wallet.balance_of(1002), Some(8_500));
    assert_eq!(wallet.balance_of(1003), Some(10_000));
}

#[test]
fn add_under_a_used_number_replaces_the_account() {
    let mut wallet = three_accounts();
    wallet.add_user(User::new("Ngozi".to_string(), Bank::Moniepoint, 1001, 7));
    let user = wallet.get_user(1001).unwrap();
    assert_eq!(user.name, "Ngozi");
    assert_eq!(user.bank, Bank::Moniepoint);
    assert_eq!(user.balance, 7);
    assert_eq!(wallet.list_all_users().len(), 3);
}

#[test]
fn deposit_adds_to_the_balance() {
    let mut wallet = three_accounts();
    assert_eq!(wallet.deposit_to(1001, 4_000), Status::Success);
    assert_eq!(wallet.balance_of(1001), Some(9_000));
    assert_eq!(wallet.balance_of(1002), Some(8_500));
    assert_eq!(wallet.balance_of(1003), Some(10_000));
}

#[test]
fn deposit_of_zero_reports_success() {
    let mut wallet = three_accounts();
    assert_eq!(wallet.deposit_to(1003, 0), Status::Success);
    assert_eq!(wallet.balance_of(1003), Some(10_000));
}

#[test]
fn deposit_keeps_name_and_bank() {
    let mut wallet = three_accounts();
    wallet.deposit_to(1002, 1);
    let user = wallet.get_user(1002).unwrap();
    assert_eq!(user.name, "Ada");
    assert_eq!(user.bank, Bank::Opay);
    assert_eq!(user.account_number, 1002);
    assert_eq!(user.balance, 8_501);
}

#[test]
fn withdraw_beyond_the_balance_changes_nothing() {
    let mut wallet = three_accounts();
    assert_eq!(wallet.withdraw_from(1001, 5_001), Status::InsufficientFunds);
    assert_eq!(wallet.balance_of(1001), Some(5_000));
}

#[test]
fn withdraw_within_the_balance_subtracts() {
    let mut wallet = three_accounts();
    assert_eq!(wallet.withdraw_from(1001, 5_000), Status::Success);
    assert_eq!(wallet.balance_of(1001), Some(0));
    assert_eq!(wallet.withdraw_from(1003, 1), Status::Success);
    assert_eq!(wallet.balance_of(1003), Some(9_999));
    assert_eq!(wallet.balance_of(1002), Some(8_500));
}

#[test]
fn absent_account_is_reported_by_every_operation() {
    let mut wallet = three_accounts();
    assert_eq!(wallet.deposit_to(2000, 1), Status::AccountNotFound);
    assert_eq!(wallet.withdraw_from(2000, 1), Status::AccountNotFound);
    assert_eq!(wallet.withdraw_from(2000, 0), Status::AccountNotFound);
    assert_eq!(
        wallet.update_user(2000, Some("Nobody".to_string()), Some(Bank::Kuda)),
        Status::AccountNotFound
    );
    assert_eq!(wallet.remove_user(2000), Status::AccountNotFound);
    assert_eq!(wallet.balance_of(2000), None);
    assert!(wallet.get_user(2000).is_none());
    assert_eq!(sorted_numbers(&wallet), vec![1001, 1002, 1003]);
    assert_eq!(wallet.balance_of(1001), Some(5_000));
    assert_eq!(wallet.balance_of(1002), Some(8_500));
    assert_eq!(wallet.balance_of(1003), Some(10_000));
    assert_eq!(wallet.get_user(1001).unwrap().name, "Uche");
}

#[test]
fn removed_account_is_gone() {
    let mut wallet = three_accounts();
    assert_eq!(wallet.remove_user(1003), Status::Success);
    assert!(wallet.get_user(1003).is_none());
    assert_eq!(wallet.balance_of(1003), None);
    assert_eq!(wallet.remove_user(1003), Status::AccountNotFound);
    assert_eq!(sorted_numbers(&wallet), vec![1001, 1002]);
}

#[test]
fn removed_number_can_be_used_again() {
    let mut wallet = three_accounts();
    assert_eq!(wallet.remove_user(1002), Status::Success);
    wallet.add_user(User::new("Bola".to_string(), Bank::Kuda, 1002, 3));
    assert_eq!(wallet.balance_of(1002), Some(3));
    assert_eq!(wallet.get_user(1002).unwrap().name, "Bola");
}

#[test]
fn update_of_the_name_alone_keeps_the_bank() {
    let mut wallet = three_accounts();
    assert_eq!(wallet.update_user(1002, Some("Ada Obi".to_string()), None), Status::Success);
    let user = wallet.get_user(1002).unwrap();
    assert_eq!(user.name, "Ada Obi");
    assert_eq!(user.bank, Bank::Opay);
    assert_eq!(user.account_number, 1002);
    assert_eq!(user.balance, 8_500);
}

#[test]
fn update_of_the_bank_alone_keeps_the_name() {
    let mut wallet = three_accounts();
    assert_eq!(wallet.update_user(1002, None, Some(Bank::Moniepoint)), Status::Success);
    let user = wallet.get_user(1002).unwrap();
    assert_eq!(user.name, "Ada");
    assert_eq!(user.bank, Bank::Moniepoint);
    assert_eq!(user.account_number, 1002);
    assert_eq!(user.balance, 8_500);
}

#[test]
fn update_of_both_fields() {
    let mut wallet = three_accounts();
    assert_eq!(
        wallet.update_user(1002, Some("Ada Obi".to_string()), Some(Bank::Moniepoint)),
        Status::Success
    );
    let user = wallet.get_user(1002).unwrap();
    assert_eq!(user.name, "Ada Obi");
    assert_eq!(user.bank, Bank::Moniepoint);
    assert_eq!(wallet.get_user(1001).unwrap().name, "Uche");
    assert_eq!(wallet.get_user(1001).unwrap().bank, Bank::Kuda);
}

#[test]
fn update_of_no_field_reports_success() {
    let mut wallet = three_accounts();
    assert_eq!(wallet.update_user(1003, None, None), Status::Success);
    let user = wallet.get_user(1003).unwrap();
    assert_eq!(user.name, "Chidi");
    assert_eq!(user.bank, Bank::PalmPay);
    assert_eq!(user.balance, 10_000);
}

#[test]
fn update_accepts_an_empty_name() {
    let mut wallet = three_accounts();
    assert_eq!(wallet.update_user(1001, Some(String::new()), None), Status::Success);
    assert_eq!(wallet.get_user(1001).unwrap().name, "");
}

#[test]
fn list_holds_every_account_once() {
    let wallet = three_accounts();
    let users = wallet.list_all_users();
    assert_eq!(users.len(), 3);
    for user in users {
        let stored = wallet.get_user(user.account_number).unwrap();
        assert_eq!(stored.name, user.name);
        assert_eq!(stored.bank, user.bank);
        assert_eq!(stored.balance, user.balance);
    }
    assert_eq!(sorted_numbers(&wallet), vec![1001, 1002, 1003]);
}

#[test]
fn demonstration_sequence() {
    let mut wallet = three_accounts();
    assert_eq!(wallet.deposit_to(1001, 4_000), Status::Success);
    assert_eq!(wallet.balance_of(1001), Some(9_000));
    assert_eq!(wallet.withdraw_from(1002, 7_000), Status::Success);
    assert_eq!(wallet.balance_of(1002), Some(1_500));
    assert_eq!(wallet.withdraw_from(1002, 7_000), Status::InsufficientFunds);
    assert_eq!(wallet.balance_of(1002), Some(1_500));
    assert_eq!(wallet.remove_user(1003), Status::Success);
    assert!(wallet.get_user(1003).is_none());
    assert_eq!(wallet.list_all_users().len(), 2);
}

#[test]
fn status_and_bank_print_their_names() {
    assert_eq!(format!("{:?}", Status::Success), "Success");
    assert_eq!(format!("{:?}", Status::InsufficientFunds), "InsufficientFunds");
    assert_eq!(format!("{:?}", Status::AccountNotFound), "AccountNotFound");
    assert_eq!(format!("{:?}", Bank::Moniepoint), "Moniepoint");
}
