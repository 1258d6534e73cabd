//! Which account updates are of interest.
use vstd::prelude::*;
use crate::text::{contains_text, copy_list, list_contains};

verus! {

/// The token that selects every account, or every transaction.
pub open spec fn wildcard_token() -> Seq<char> {
    seq!['*']
}

/// The wildcard token as a string.
pub fn wildcard() -> (r: String)
    ensures
        r@ == wildcard_token(),
{
    proof {
        reveal_strlit("*");
    }
    "*".to_owned()
}

/// Selects account updates by the account's address or by its owner.
pub struct AccountsSelector {
    /// Addresses that are selected whatever their owner.
    pub accounts: Vec<String>,
    /// Owners whose accounts are all selected.
    pub owners: Vec<String>,
    /// Every account is selected; the two lists are then not consulted.
    pub select_all_accounts: bool,
}

impl AccountsSelector {
    /// The account `address` owned by `owner` is selected.
    pub open spec fn selects(&self, address: Seq<char>, owner: Seq<char>) -> bool {
        self.select_all_accounts || contains_text(self.accounts@, address) || contains_text(
            self.owners@,
            owner,
        )
    }

    /// Some account can be selected.
    pub open spec fn enabled(&self) -> bool {
        self.select_all_accounts || self.accounts@.len() > 0 || self.owners@.len() > 0
    }

    /// What a selector built from the lists `accounts` and `owners` holds.
    pub open spec fn built_from(&self, accounts: Seq<String>, owners: Seq<String>) -> bool {
        &&& self.select_all_accounts == contains_text(accounts, wildcard_token())
        &&& self.select_all_accounts ==> self.accounts@.len() == 0 && self.owners@.len() == 0
        &&& !self.select_all_accounts ==> self.accounts@ == accounts && self.owners@ == owners
    }

    /// A selector over the addresses `accounts` and the owners `owners`; the
    /// wildcard among `accounts` selects everything.
    pub fn new(accounts: &[String], owners: &[String]) -> (r: AccountsSelector)
        ensures
            r.built_from(accounts@, owners@),
    {
        let star = wildcard();
        if list_contains(accounts, &star) {
            AccountsSelector { accounts: Vec::new(), owners: Vec::new(), select_all_accounts: true }
        } else {
            AccountsSelector {
                accounts: copy_list(accounts),
                owners: copy_list(owners),
                select_all_accounts: false,
            }
        }
    }

    /// Whether the account at `account` owned by `owner` is selected.
    pub fn is_account_selected(&self, account: &String, owner: &String) -> (r: bool)
        ensures
            r == self.selects(account@, owner@),
    {
        self.select_all_accounts || list_contains(&self.accounts, account) || list_contains(
            &self.owners,
            owner,
        )
    }

    /// Whether any account can be selected.
    pub fn is_enabled(&self) -> (r: bool)
        ensures
            r == self.enabled(),
    {
        self.select_all_accounts || self.accounts.len() > 0 || self.owners.len() > 0
    }
}

impl Default for AccountsSelector {
    /// Selects nothing.
    fn default() -> (r: AccountsSelector)
        ensures
            r.accounts@.len() == 0,
            r.owners@.len() == 0,
            !r.select_all_accounts,
    {
        AccountsSelector { accounts: Vec::new(), owners: Vec::new(), select_all_accounts: false }
    }
}

/// A selector built with the wildcard among its accounts selects every
/// account, whatever its owner.
pub proof fn lemma_wildcard_selects_every_account(
    r: AccountsSelector,
    accounts: Seq<String>,
    owners: Seq<String>,
    address: Seq<char>,
    owner: Seq<char>,
)
    requires
        r.built_from(accounts, owners),
        contains_text(accounts, wildcard_token()),
    ensures
        r.selects(address, owner),
{
}

/// A selector built with the single account `a` selects `a` for every owner,
/// and selects any other address exactly when its owner is listed.
pub proof fn lemma_single_account_selection(
    r: AccountsSelector,
    a: String,
    owners: Seq<String>,
    b: Seq<char>,
    owner: Seq<char>,
)
    requires
        r.built_from(seq![a], owners),
        a@ != wildcard_token(),
    ensures
        r.selects(a@, owner),
        b != a@ ==> (r.selects(b, owner) <==> contains_text(owners, owner)),
{
    assert(seq![a][0]@ == a@);
    if contains_text(seq![a], wildcard_token()) {
        let i = choose|i: int| 0 <= i < 1 && #[trigger] seq![a][i]@ == wildcard_token();
        assert(i == 0);
    }
}

/// The default selector, used when no accounts section is configured,
/// is disabled and selects no account.
pub proof fn lemma_default_selects_nothing(r: AccountsSelector, address: Seq<char>, owner: Seq<char>)
    requires
        r.accounts@.len() == 0,
        r.owners@.len() == 0,
        !r.select_all_accounts,
    ensures
        !r.enabled(),
        !r.selects(address, owner),
{
}

} // verus!
