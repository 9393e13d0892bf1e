//! What a full scan of the index reports. The scan trusts none of the
//! bookkeeping: it looks at every slot below the stored count and compares it
//! with the balances and with the reverse index.

use vstd::prelude::*;
use crate::msg::AuditView;
use crate::state::State;
use crate::text::decimal;

verus! {

pub open spec fn zero_balance_text(user: Seq<char>, slot: u32) -> Seq<char> {
    "User "@ + user + " at index "@ + decimal(slot as nat) + " has zero balance but is in index"@
}

pub open spec fn no_balance_text(user: Seq<char>, slot: u32) -> Seq<char> {
    "User "@ + user + " at index "@ + decimal(slot as nat) + " not found in USERS map"@
}

pub open spec fn reverse_mismatch_text(user: Seq<char>, slot: u32, reverse: u32) -> Seq<char> {
    "Reverse index mismatch: user "@ + user + " has index "@ + decimal(slot as nat)
        + " in forward, "@ + decimal(reverse as nat) + " in reverse"@
}

pub open spec fn no_reverse_text(user: Seq<char>, slot: u32) -> Seq<char> {
    "User "@ + user + " at index "@ + decimal(slot as nat) + " missing in reverse index"@
}

pub open spec fn gap_text(slot: u32) -> Seq<char> {
    "Gap detected: index "@ + decimal(slot as nat) + " is missing"@
}

pub open spec fn count_mismatch_text(stored: u32, found: u32) -> Seq<char> {
    "User count mismatch: stored count is "@ + decimal(stored as nat)
        + ", actual users with non-zero balance is "@ + decimal(found as nat)
}

pub open spec fn missing_reverse_text(user: Seq<char>) -> Seq<char> {
    "User "@ + user + " missing in reverse index"@
}

pub open spec fn index_mismatch_text(expected: u32, reverse: u32) -> Seq<char> {
    "Index mismatch: forward index has "@ + decimal(expected as nat) + ", reverse index has "@
        + decimal(reverse as nat)
}

pub open spec fn missing_forward_text(user: Seq<char>, expected: u32) -> Seq<char> {
    "User "@ + user + " missing in forward index at "@ + decimal(expected as nat)
}

pub open spec fn user_mismatch_text(expected: u32, user: Seq<char>, found: Seq<char>) -> Seq<
    char,
> {
    "User mismatch at index "@ + decimal(expected as nat) + ": expected "@ + user + ", found "@
        + found
}

/// What a look at one account's two index entries finds.
pub enum LinkCheck {
    /// Each leads to the other.
    Sound,
    /// They do not, for the reason given.
    Fault(Seq<char>),
    /// One of them does not parse.
    Unreadable,
}

impl State {
    /// Whether an account and a slot lead to each other. The way back is
    /// looked at first.
    pub open spec fn link_check(self, user: Seq<char>, expected: u32) -> LinkCheck {
        if !self.user_index_reverse.contains_key(user) {
            LinkCheck::Fault(missing_reverse_text(user))
        } else {
            match self.user_index_reverse[user] {
                None => LinkCheck::Unreadable,
                Some(reverse) => if reverse != expected {
                    LinkCheck::Fault(index_mismatch_text(expected, reverse))
                } else if !self.user_index.contains_key(expected) {
                    LinkCheck::Fault(missing_forward_text(user, expected))
                } else {
                    match self.user_index[expected] {
                        None => LinkCheck::Unreadable,
                        Some(found) => if found != user {
                            LinkCheck::Fault(user_mismatch_text(expected, user, found))
                        } else {
                            LinkCheck::Sound
                        },
                    }
                },
            }
        }
    }

    /// What is wrong with the balance of the account in a slot.
    pub open spec fn balance_issues(self, user: Seq<char>, slot: u32) -> Seq<Seq<char>> {
        if !self.users.contains_key(user) {
            seq![no_balance_text(user, slot)]
        } else if self.users[user] == Some(0u128) {
            seq![zero_balance_text(user, slot)]
        } else {
            seq![]
        }
    }

    /// What is wrong with the way back from the account in a slot.
    pub open spec fn reverse_issues(self, user: Seq<char>, slot: u32) -> Seq<Seq<char>> {
        if !self.user_index_reverse.contains_key(user) {
            seq![no_reverse_text(user, slot)]
        } else {
            match self.user_index_reverse[user] {
                Some(reverse) if reverse != slot => seq![reverse_mismatch_text(user, slot, reverse)],
                _ => seq![],
            }
        }
    }

    /// What the scan reports of one slot: a gap, or what is wrong with the
    /// account's balance and then with its way back.
    pub open spec fn slot_issues(self, slot: u32) -> Seq<Seq<char>> {
        if !self.user_index.contains_key(slot) {
            seq![gap_text(slot)]
        } else {
            match self.user_index[slot] {
                Some(user) => self.balance_issues(user, slot) + self.reverse_issues(user, slot),
                None => seq![],
            }
        }
    }

    /// The scan cannot read this slot: its own cell, the balance of its
    /// account or that account's way back does not parse.
    pub open spec fn slot_unreadable(self, slot: u32) -> bool {
        self.user_index.contains_key(slot) && match self.user_index[slot] {
            None => true,
            Some(user) => {
                ||| self.users.contains_key(user) && self.users[user] is None
                ||| self.user_index_reverse.contains_key(user)
                    && self.user_index_reverse[user] is None
            },
        }
    }

    /// The slot holds an account with a positive balance.
    pub open spec fn slot_funded(self, slot: u32) -> bool {
        &&& self.user_index.contains_key(slot)
        &&& self.user_index[slot] matches Some(user)
        &&& self.users.contains_key(user)
        &&& self.users[user] matches Some(held)
        &&& held > 0
    }

    /// The findings of the slots below `n`, in slot order.
    pub open spec fn issues_below(self, n: nat) -> Seq<Seq<char>>
        decreases n,
    {
        if n == 0 {
            seq![]
        } else {
            self.issues_below((n - 1) as nat) + self.slot_issues((n - 1) as u32)
        }
    }

    /// How many slots below `n` hold an account with a positive balance.
    pub open spec fn funded_below(self, n: nat) -> nat
        decreases n,
    {
        if n == 0 {
            0
        } else {
            self.funded_below((n - 1) as nat) + if self.slot_funded((n - 1) as u32) {
                1nat
            } else {
                0nat
            }
        }
    }

    /// How many slots below `n` have a cell.
    pub open spec fn filled_below(self, n: nat) -> nat
        decreases n,
    {
        if n == 0 {
            0
        } else {
            self.filled_below((n - 1) as nat) + if self.user_index.contains_key((n - 1) as u32) {
                1nat
            } else {
                0nat
            }
        }
    }

    /// The report of a full scan; `None` where the count or a slot below it
    /// cannot be read.
    pub open spec fn audit(self) -> Option<AuditView> {
        match self.user_count {
            Some(stored) if forall|slot: u32| slot < stored ==> !self.slot_unreadable(slot) => {
                let found = self.funded_below(stored as nat) as u32;
                let issues = self.issues_below(stored as nat) + if stored != found {
                    seq![count_mismatch_text(stored, found)]
                } else {
                    seq![]
                };
                Some(
                    AuditView {
                        is_consistent: issues.len() == 0,
                        issues,
                        user_count_stored: stored,
                        user_count_actual: found,
                        total_users_in_index: self.filled_below(stored as nat) as u32,
                    },
                )
            },
            _ => None,
        }
    }

    /// Of the slots below `n`, no more are funded than have a cell, and no
    /// more have a cell than there are.
    pub proof fn lemma_scan_bounds(self, n: nat)
        ensures
            self.funded_below(n) <= self.filled_below(n) <= n,
        decreases n,
    {
        if n > 0 {
            self.lemma_scan_bounds((n - 1) as nat);
        }
    }
}

} // verus!
