//! Which transactions are of interest.
use vstd::prelude::*;
use crate::accounts_selector::{wildcard, wildcard_token};
use crate::text::{any_listed, contains_text, list_contains, without_text};

verus! {

/// The token that selects every vote transaction.
pub open spec fn all_votes_token() -> Seq<char> {
    seq!['a', 'l', 'l', '_', 'v', 'o', 't', 'e', 's']
}

/// The all-votes token as a string.
pub fn all_votes() -> (r: String)
    ensures
        r@ == all_votes_token(),
{
    proof {
        reveal_strlit("all_votes");
    }
    "all_votes".to_owned()
}

/// Some entry of `mentioned` is listed in `v`.
pub open spec fn mentions_any(v: Seq<String>, mentioned: Seq<String>) -> bool {
    exists|k: int| 0 <= k < mentioned.len() && contains_text(v, #[trigger] mentioned[k]@)
}

/// Selects transactions by the addresses they mention, or by being votes.
pub struct TransactionSelector {
    /// Addresses whose mention selects a transaction.
    pub mentions: Vec<String>,
    /// Every transaction is selected.
    pub select_all_transactions: bool,
    /// Every vote transaction is selected.
    pub select_all_vote_transactions: bool,
}

impl TransactionSelector {
    /// A transaction, a vote or not as `is_vote` says, that mentions the
    /// addresses `mentioned`, is selected.
    pub open spec fn selects(&self, is_vote: bool, mentioned: Seq<String>) -> bool {
        self.select_all_transactions || (self.select_all_vote_transactions && is_vote)
            || mentions_any(self.mentions@, mentioned)
    }

    /// Some transaction can be selected.
    pub open spec fn enabled(&self) -> bool {
        self.select_all_transactions || self.select_all_vote_transactions || self.mentions@.len()
            > 0
    }

    /// What a selector built from the list `mentions` holds: the wildcard
    /// selects everything; otherwise the all-votes token selects the votes and
    /// the other entries are the mentioned addresses.
    pub open spec fn built_from(&self, mentions: Seq<String>) -> bool {
        &&& self.select_all_transactions == contains_text(mentions, wildcard_token())
        &&& self.select_all_transactions ==> self.mentions@.len() == 0
            && !self.select_all_vote_transactions
        &&& !self.select_all_transactions ==> {
            &&& self.select_all_vote_transactions == contains_text(mentions, all_votes_token())
            &&& forall|s: Seq<char>|
                contains_text(self.mentions@, s) <==> (contains_text(mentions, s) && s
                    != all_votes_token())
        }
    }

    /// A selector over the list `accounts` of mentioned addresses and tokens.
    pub fn new(accounts: &[String]) -> (r: TransactionSelector)
        ensures
            r.built_from(accounts@),
    {
        let star = wildcard();
        if list_contains(accounts, &star) {
            return TransactionSelector {
                mentions: Vec::new(),
                select_all_transactions: true,
                select_all_vote_transactions: false,
            };
        }
        let votes = all_votes();
        let select_all_vote_transactions = list_contains(accounts, &votes);
        let mentions = without_text(accounts, &votes);
        TransactionSelector { mentions, select_all_transactions: false, select_all_vote_transactions }
    }

    /// Whether a transaction, a vote or not as `is_vote` says, that mentions
    /// the addresses `mentioned` is selected; the addresses are read only up to
    /// the first listed one.
    pub fn is_transaction_selected(&self, is_vote: bool, mentioned: &[String]) -> (r: bool)
        ensures
            r == self.selects(is_vote, mentioned@),
    {
        if self.select_all_transactions {
            return true;
        }
        if self.select_all_vote_transactions && is_vote {
            return true;
        }
        any_listed(&self.mentions, mentioned)
    }

    /// Whether any transaction can be selected.
    pub fn is_enabled(&self) -> (r: bool)
        ensures
            r == self.enabled(),
    {
        self.select_all_transactions || self.select_all_vote_transactions || self.mentions.len()
            > 0
    }
}

impl Default for TransactionSelector {
    /// Selects nothing.
    fn default() -> (r: TransactionSelector)
        ensures
            r.mentions@.len() == 0,
            !r.select_all_transactions,
            !r.select_all_vote_transactions,
    {
        TransactionSelector {
            mentions: Vec::new(),
            select_all_transactions: false,
            select_all_vote_transactions: false,
        }
    }
}

/// A selector built with the all-votes token alone selects every vote
/// transaction, whatever it mentions, and no other transaction.
pub proof fn lemma_all_votes_selection(
    r: TransactionSelector,
    votes: String,
    is_vote: bool,
    mentioned: Seq<String>,
)
    requires
        votes@ == all_votes_token(),
        r.built_from(seq![votes]),
    ensures
        r.selects(is_vote, mentioned) == is_vote,
{
    assert(seq![votes][0]@ == votes@);
    if contains_text(seq![votes], wildcard_token()) {
        let i = choose|i: int| 0 <= i < 1 && #[trigger] seq![votes][i]@ == wildcard_token();
        assert(i == 0);
        assert(all_votes_token()[0] != wildcard_token()[0]);
    }
    assert(contains_text(seq![votes], all_votes_token()));
    if mentions_any(r.mentions@, mentioned) {
        let k = choose|k: int|
            0 <= k < mentioned.len() && contains_text(r.mentions@, #[trigger] mentioned[k]@);
        let s = mentioned[k]@;
        assert(contains_text(seq![votes], s) && s != all_votes_token());
        let i = choose|i: int| 0 <= i < 1 && #[trigger] seq![votes][i]@ == s;
        assert(i == 0);
    }
}

} // verus!
