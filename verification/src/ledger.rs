//! The ledger as a state machine over what the store holds: what each
//! operation makes of a state, and what a listing shows of it.

use vstd::prelude::*;
use crate::error::ErrorKind;
use crate::msg::{CoinView, PageView};
use crate::state::State;

verus! {

/// The page size where a query names none.
pub const DEFAULT_QUERY_LIMIT: u32 = 30;

/// The largest page that a query can ask for.
pub const MAX_QUERY_LIMIT: u32 = 100;

/// The shortest time, in seconds, between the announcement of a sweep and
/// the sweep: seven days.
pub const MIN_WITHDRAWAL_DELAY: u64 = 604800;

/// How an account leaves the index.
pub enum Removal {
    /// It holds no slot: nothing is to be done.
    Absent,
    /// It holds the last slot, which goes.
    Last { last: u32 },
    /// It holds an earlier slot. The account of the last slot moves there,
    /// and the last slot goes.
    Swap { slot: u32, last: u32, mover: Seq<char> },
}

/// The page size that a query gets.
pub open spec fn page_limit(limit: Option<u32>) -> nat {
    let asked = match limit {
        Some(asked) => asked,
        None => DEFAULT_QUERY_LIMIT,
    };
    if asked > MAX_QUERY_LIMIT {
        MAX_QUERY_LIMIT as nat
    } else {
        asked as nat
    }
}

impl State {
    /// What an account holds: the balance in its cell, nothing where it has
    /// none. `None` where the cell does not parse.
    pub open spec fn balance(self, who: Seq<char>) -> Option<u128> {
        if self.users.contains_key(who) {
            self.users[who]
        } else {
            Some(0u128)
        }
    }

    /// The state after a deposit. The balance and the total grow by the
    /// amount. An account that held nothing takes the slot at the count,
    /// and the count grows by one.
    ///
    /// A deposit of nothing is refused. `Std` stands for a cell that does
    /// not parse and for a sum beyond 128 bits; `IndexConversionFailed` for a
    /// count that has no successor in 32 bits.
    pub open spec fn deposit(self, who: Seq<char>, amount: u128) -> Result<State, ErrorKind> {
        if amount == 0 {
            Err(ErrorKind::InvalidAmount)
        } else {
            match (self.balance(who), self.total_deposits) {
                (Some(held), Some(total)) => if held + amount > u128::MAX || total + amount
                    > u128::MAX {
                    Err(ErrorKind::Std)
                } else {
                    let paid = State {
                        users: self.users.insert(who, Some((held + amount) as u128)),
                        total_deposits: Some((total + amount) as u128),
                        ..self
                    };
                    if held != 0 {
                        Ok(paid)
                    } else {
                        match self.user_count {
                            None => Err(ErrorKind::Std),
                            Some(count) => if count == u32::MAX {
                                Err(ErrorKind::IndexConversionFailed)
                            } else {
                                Ok(
                                    State {
                                        user_index: self.user_index.insert(count, Some(who)),
                                        user_index_reverse: self.user_index_reverse.insert(
                                            who,
                                            Some(count),
                                        ),
                                        user_count: Some((count + 1) as u32),
                                        ..paid
                                    },
                                )
                            },
                        }
                    }
                },
                _ => Err(ErrorKind::Std),
            }
        }
    }

    /// How an account would leave the index.
    ///
    /// `IndexInconsistency` stands for a slot at or beyond the count, and for
    /// a last slot without a cell where its account has to move; `Std` for a
    /// cell that does not parse.
    pub open spec fn removal(self, who: Seq<char>) -> Result<Removal, ErrorKind> {
        if !self.user_index_reverse.contains_key(who) {
            Ok(Removal::Absent)
        } else {
            match (self.user_index_reverse[who], self.user_count) {
                (Some(slot), Some(count)) => if slot >= count {
                    Err(ErrorKind::IndexInconsistency)
                } else if slot == count - 1 {
                    Ok(Removal::Last { last: slot })
                } else {
                    let last = (count - 1) as u32;
                    if !self.user_index.contains_key(last) {
                        Err(ErrorKind::IndexInconsistency)
                    } else {
                        match self.user_index[last] {
                            Some(mover) => Ok(Removal::Swap { slot, last, mover }),
                            None => Err(ErrorKind::Std),
                        }
                    }
                },
                _ => Err(ErrorKind::Std),
            }
        }
    }

    /// The state once an account has left the index in the given way.
    pub open spec fn without(self, who: Seq<char>, removal: Removal) -> State {
        match removal {
            Removal::Absent => self,
            Removal::Last { last } => State {
                user_index: self.user_index.remove(last),
                user_index_reverse: self.user_index_reverse.remove(who),
                user_count: Some(last),
                ..self
            },
            Removal::Swap { slot, last, mover } => State {
                user_index: self.user_index.insert(slot, Some(mover)).remove(last),
                user_index_reverse: self.user_index_reverse.insert(mover, Some(slot)).remove(who),
                user_count: Some(last),
                ..self
            },
        }
    }

    /// The state after an account has been taken out of the index: the
    /// account of the last slot takes over the slot that falls vacant, so
    /// that the slots below the count stay without a gap.
    pub open spec fn remove_from_index(self, who: Seq<char>) -> Result<State, ErrorKind> {
        match self.removal(who) {
            Ok(removal) => Ok(self.without(who, removal)),
            Err(kind) => Err(kind),
        }
    }

    /// The state after a withdrawal. The balance and the total shrink by
    /// the amount. An account that is left with nothing loses its cell and
    /// its slot.
    ///
    /// A withdrawal of nothing and one beyond the balance are refused; so is
    /// one that the index cannot follow (see `removal`). `Std` stands for a
    /// cell that does not parse and for a total below the amount.
    pub open spec fn withdraw(self, who: Seq<char>, amount: u128) -> Result<State, ErrorKind> {
        if amount == 0 {
            Err(ErrorKind::InvalidAmount)
        } else {
            match self.balance(who) {
                None => Err(ErrorKind::Std),
                Some(held) => if held < amount {
                    Err(ErrorKind::InsufficientBalance)
                } else {
                    let left = if held == amount {
                        self.removal(who)
                    } else {
                        Ok(Removal::Absent)
                    };
                    match (left, self.total_deposits) {
                        (Err(kind), _) => Err(kind),
                        (Ok(removal), Some(total)) if total >= amount => Ok(
                            State {
                                users: if held == amount {
                                    self.users.remove(who)
                                } else {
                                    self.users.insert(who, Some((held - amount) as u128))
                                },
                                total_deposits: Some((total - amount) as u128),
                                ..self.without(who, removal)
                            },
                        ),
                        _ => Err(ErrorKind::Std),
                    }
                },
            }
        }
    }

    /// The state after a sweep has been announced: destination and unlock
    /// time are replaced together. The time must lie at least seven days
    /// after `now`.
    pub open spec fn configure_timelock(self, destination: Seq<char>, unlock: u64, now: u64)
        -> Result<State, ErrorKind> {
        if unlock < now + MIN_WITHDRAWAL_DELAY {
            Err(ErrorKind::InvalidTimestamp)
        } else {
            Ok(
                State {
                    withdrawal_destination: Some(Some(destination)),
                    withdrawal_unlock_timestamp: Some(unlock),
                    ..self
                },
            )
        }
    }

    /// Where a sweep goes and what it carries: the announced destination and
    /// the whole pool. `pool` is what the host says the ledger's account
    /// holds, `None` where the host could not say.
    ///
    /// The sweep needs an announced destination, an announced unlock time
    /// that has come, and a pool that is not empty.
    pub open spec fn authorize_sweep(self, now: u64, pool: Option<CoinView>) -> Result<
        (Seq<char>, CoinView),
        ErrorKind,
    > {
        match (self.withdrawal_destination, self.withdrawal_unlock_timestamp) {
            (None, _) => Err(ErrorKind::Std),
            (Some(None), _) => Err(ErrorKind::WithdrawalDestinationNotSet),
            (Some(Some(_)), None) => Err(ErrorKind::Std),
            (Some(Some(destination)), Some(unlock)) => if unlock == 0 {
                Err(ErrorKind::WithdrawalTimestampNotSet)
            } else if now < unlock {
                Err(ErrorKind::WithdrawalNotUnlocked)
            } else {
                match pool {
                    None => Err(ErrorKind::Std),
                    Some(coin) => if coin.amount == 0 {
                        Err(ErrorKind::NoBalanceToWithdraw)
                    } else {
                        Ok((destination, coin))
                    },
                }
            },
        }
    }

    /// What a slot adds to a listing: its account and balance, where the
    /// balance is positive.
    pub open spec fn slot_entry(self, slot: u32) -> Seq<(Seq<char>, u128)> {
        if self.slot_funded(slot) {
            let user = self.user_index[slot].unwrap();
            seq![(user, self.users[user].unwrap())]
        } else {
            seq![]
        }
    }

    /// A listing cannot read this slot: its own cell or the balance of its
    /// account does not parse.
    pub open spec fn slot_unlistable(self, slot: u32) -> bool {
        self.user_index.contains_key(slot) && match self.user_index[slot] {
            None => true,
            Some(user) => self.users.contains_key(user) && self.users[user] is None,
        }
    }

    /// The accounts with a positive balance in the slots from `from` up to,
    /// but without, `to`, in slot order.
    pub open spec fn listed(self, from: nat, to: nat) -> Seq<(Seq<char>, u128)>
        decreases to,
    {
        if to <= from {
            seq![]
        } else {
            self.listed(from, (to - 1) as nat) + self.slot_entry((to - 1) as u32)
        }
    }

    /// The slot at which a page begins: the first one, or the one after the
    /// cursor's.
    pub open spec fn page_start(self, start_after: Option<Seq<char>>) -> Result<nat, ErrorKind> {
        match start_after {
            None => Ok(0),
            Some(cursor) => if !self.user_index_reverse.contains_key(cursor) {
                Err(ErrorKind::StartAfterUserNotFound)
            } else {
                match self.user_index_reverse[cursor] {
                    Some(slot) => Ok((slot + 1) as nat),
                    None => Err(ErrorKind::Std),
                }
            },
        }
    }

    /// One page of the listing. It holds the first `page_limit(limit)`
    /// funded accounts from the starting slot on. Its cursor is the last of
    /// them where the page is full and slots remain behind that account's.
    ///
    /// The page cannot be had where the count, the cursor's slot, or a slot
    /// that is reached before the page is full does not parse.
    pub open spec fn page(self, start_after: Option<Seq<char>>, limit: Option<u32>) -> Result<
        PageView,
        ErrorKind,
    > {
        let room = page_limit(limit);
        match (self.user_count, self.page_start(start_after)) {
            (None, _) => Err(ErrorKind::Std),
            (Some(_), Err(kind)) => Err(kind),
            (Some(count), Ok(start)) => if exists|slot: u32|
                start <= slot < count && self.slot_unlistable(slot) && self.listed(
                    start,
                    slot as nat,
                ).len() < room {
                Err(ErrorKind::Std)
            } else {
                let all = self.listed(start, count as nat);
                let users = if all.len() <= room {
                    all
                } else {
                    all.take(room as int)
                };
                let more = room > 0 && count > 0 && self.listed(start, (count - 1) as nat).len()
                    >= room;
                Ok(
                    PageView {
                        users,
                        next: if more {
                            Some(users.last().0)
                        } else {
                            None
                        },
                    },
                )
            },
        }
    }

    /// A listing of fewer slots is the beginning of a listing of more.
    pub proof fn lemma_listed_prefix(self, from: nat, mid: nat, to: nat)
        requires
            mid <= to,
        ensures
            self.listed(from, mid).len() <= self.listed(from, to).len(),
            self.listed(from, to).take(self.listed(from, mid).len() as int) == self.listed(
                from,
                mid,
            ),
        decreases to,
    {
        if mid == to {
            assert(self.listed(from, to).take(self.listed(from, to).len() as int) =~= self.listed(
                from,
                to,
            ));
        } else if to <= from {
            assert(self.listed(from, mid) =~= self.listed(from, to));
            assert(self.listed(from, to).take(0) =~= self.listed(from, mid));
        } else {
            self.lemma_listed_prefix(from, mid, (to - 1) as nat);
            let shorter = self.listed(from, (to - 1) as nat);
            let n = self.listed(from, mid).len() as int;
            assert((shorter + self.slot_entry((to - 1) as u32)).take(n) =~= shorter.take(n));
        }
    }
}

} // verus!
