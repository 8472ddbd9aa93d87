use lessons::bank::{change_account, Account, Bank};
use lessons::languages::{last_language, longest_language, next_language};
use lessons::task::{Employee, Task};

#[test]
fn new_account_starts_at_zero() {
    let account = Account::new(1, String::from("John Wick 1"));
    assert_eq!(account.balance, 0);
    assert_eq!(account.holder, "John Wick 1");
    assert_eq!(account.id, 1);
}

#[test]
fn new_bank_has_no_accounts() {
    let bank = Bank::new();
    assert!(bank.accounts.is_empty());
}

#[test]
fn change_account_sets_the_balance() {
    let mut account = Account::new(3, String::from("John Wick 3"));
    change_account(&mut account);
    assert_eq!(account.balance, 10);
    assert_eq!(account.holder, "John Wick 3");
}

#[test]
fn task_assignment_fields() {
    let assigned = Task {
        assigned_to: Some(Employee { name: String::from("Mob Boss") }),
    };
    assert_eq!(assigned.assigned_to.unwrap().name, "Mob Boss");

    let unassigned = Task { assigned_to: None };
    assert!(unassigned.assigned_to.is_none());
}

#[test]
fn next_language_after_a_match() {
    let languages = vec![
        String::from("Rust"),
        String::from("Golang"),
        String::from("TypeScript"),
    ];
    assert_eq!(next_language(&languages, "Rust"), "Golang");
    assert_eq!(next_language(&languages, "Golang"), "TypeScript");
}

#[test]
fn next_language_falls_back_to_the_last() {
    let languages = vec![
        String::from("Rust"),
        String::from("Golang"),
        String::from("TypeScript"),
    ];
    assert_eq!(next_language(&languages, "TypeScript"), "TypeScript");
    assert_eq!(next_language(&languages, "Cobol"), "TypeScript");
}

#[test]
fn last_language_returns_the_last() {
    let languages = vec![String::from("Rust"), String::from("Golang")];
    assert_eq!(last_language(&languages), "Golang");
}

#[test]
fn longest_language_prefers_the_first_on_ties() {
    assert_eq!(longest_language("Erlang", "Golang"), "Erlang");
    assert_eq!(longest_language("C", "Golang"), "Golang");
    assert_eq!(longest_language("TypeScript", "Go"), "TypeScript");
}
