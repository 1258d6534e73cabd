use bigtable_plugin::accounts_selector::AccountsSelector;
use bigtable_plugin::transaction_selector::TransactionSelector;

fn strings(v: &[&str]) -> Vec<String> {
    v.iter().map(|s| s.to_string()).collect()
}

#[test]
fn wildcard_selects_every_account() {
    let s = AccountsSelector::new(&strings(&["*"]), &strings(&[]));
    assert!(s.is_enabled());
    assert!(s.is_account_selected(&"A".to_string(), &"X".to_string()));
    assert!(s.is_account_selected(&"9oT9R5ZyRovSVnt37QvVoBttGpNqR3J7unkb567NP8k3".to_string(), &"".to_string()));
}

#[test]
fn wildcard_among_other_accounts_still_selects_everything() {
    let s = AccountsSelector::new(&strings(&["A", "*", "B"]), &strings(&["O"]));
    assert!(s.select_all_accounts);
    assert!(s.accounts.is_empty());
    assert!(s.is_account_selected(&"C".to_string(), &"P".to_string()));
}

#[test]
fn single_account_selection() {
    let s = AccountsSelector::new(&strings(&["A"]), &strings(&[]));
    assert!(s.is_enabled());
    assert!(s.is_account_selected(&"A".to_string(), &"X".to_string()));
    assert!(s.is_account_selected(&"A".to_string(), &"Y".to_string()));
    assert!(!s.is_account_selected(&"B".to_string(), &"X".to_string()));
}

#[test]
fn owner_selects_its_accounts() {
    let s = AccountsSelector::new(&strings(&["A"]), &strings(&["O"]));
    assert!(s.is_account_selected(&"B".to_string(), &"O".to_string()));
    assert!(!s.is_account_selected(&"B".to_string(), &"P".to_string()));
}

#[test]
fn default_accounts_selector_is_disabled() {
    let s = AccountsSelector::default();
    assert!(!s.is_enabled());
    assert!(!s.is_account_selected(&"A".to_string(), &"O".to_string()));
}

#[test]
fn all_votes_selects_votes_only() {
    let s = TransactionSelector::new(&strings(&["all_votes"]));
    assert!(s.is_enabled());
    assert!(s.select_all_vote_transactions);
    assert!(s.mentions.is_empty());
    assert!(s.is_transaction_selected(true, &strings(&[])));
    assert!(s.is_transaction_selected(true, &strings(&["A", "B"])));
    assert!(!s.is_transaction_selected(false, &strings(&["A", "B"])));
}

#[test]
fn all_votes_keeps_mentions_for_other_transactions() {
    let s = TransactionSelector::new(&strings(&["all_votes", "A"]));
    assert!(s.is_transaction_selected(false, &strings(&["Z", "A"])));
    assert!(!s.is_transaction_selected(false, &strings(&["Z"])));
}

#[test]
fn wildcard_selects_every_transaction() {
    let s = TransactionSelector::new(&strings(&["A", "*"]));
    assert!(s.select_all_transactions);
    assert!(s.is_transaction_selected(false, &strings(&[])));
    assert!(s.is_transaction_selected(true, &strings(&["Q"])));
}

#[test]
fn mentions_select_by_intersection() {
    let s = TransactionSelector::new(&strings(&["A", "B"]));
    assert!(s.is_transaction_selected(false, &strings(&["X", "B"])));
    assert!(!s.is_transaction_selected(true, &strings(&["X", "Y"])));
    assert!(!s.is_transaction_selected(false, &strings(&[])));
}

#[test]
fn default_transaction_selector_is_disabled() {
    let s = TransactionSelector::default();
    assert!(!s.is_enabled());
    assert!(!s.is_transaction_selected(true, &strings(&["A"])));
}
