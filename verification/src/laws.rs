//! What stays true of the ledger: the index is a gapless two-way table of
//! exactly the accounts that hold a balance, and the total is the sum of
//! the balances. The set-up establishes this, and every operation keeps it.

use vstd::prelude::*;
use crate::error::ErrorKind;
use crate::ledger::page_limit;
use crate::msg::{AuditView, CoinView, PageView};
use crate::state::State;

verus! {

impl State {
    /// The index is compact: the slots with a cell are those below the
    /// count, and slots and accounts lead to each other.
    pub open spec fn index_compact(self) -> bool {
        &&& self.user_count matches Some(count)
        &&& forall|slot: u32| #[trigger] self.user_index.contains_key(slot) <==> slot < count
        &&& forall|slot: u32|
            slot < count ==> {
                &&& #[trigger] self.user_index[slot] matches Some(who)
                &&& self.user_index_reverse.contains_key(who)
                &&& self.user_index_reverse[who] == Some(slot)
            }
        &&& forall|who: Seq<char>| #[trigger]
            self.user_index_reverse.contains_key(who) ==> {
                &&& self.user_index_reverse[who] matches Some(slot)
                &&& slot < count
                &&& self.user_index[slot] == Some(who)
            }
    }

    /// No account has a balance or a slot, and no slot has an account: what
    /// a fresh store holds.
    pub open spec fn vacant(self) -> bool {
        &&& self.users == Map::<Seq<char>, Option<u128>>::empty()
        &&& self.user_index == Map::<u32, Option<Seq<char>>>::empty()
        &&& self.user_index_reverse == Map::<Seq<char>, Option<u32>>::empty()
    }

    /// The accounts with a cell in the balances are those with a slot, and
    /// each of them holds more than nothing.
    pub open spec fn balances_indexed(self) -> bool {
        &&& forall|who: Seq<char>| #[trigger]
            self.users.contains_key(who) <==> self.user_index_reverse.contains_key(who)
        &&& forall|who: Seq<char>| #[trigger]
            self.users.contains_key(who) ==> {
                &&& self.users[who] matches Some(held)
                &&& held > 0
            }
    }

    /// The balance of the account in a slot; nothing where the slot or the
    /// balance has no readable cell.
    pub open spec fn slot_balance(self, slot: u32) -> nat {
        if self.slot_funded(slot) {
            self.users[self.user_index[slot].unwrap()].unwrap() as nat
        } else {
            0
        }
    }

    /// The sum of the balances of the accounts in the slots below `n`.
    pub open spec fn sum_below(self, n: nat) -> nat
        decreases n,
    {
        if n == 0 {
            0
        } else {
            self.sum_below((n - 1) as nat) + self.slot_balance((n - 1) as u32)
        }
    }

    /// The ledger is in order: the index is compact, it lists exactly the
    /// accounts that hold a balance, and the total is the sum of their
    /// balances.
    pub open spec fn consistent(self) -> bool {
        &&& self.index_compact()
        &&& self.balances_indexed()
        &&& self.total_deposits matches Some(total)
        &&& total == self.sum_below(self.user_count.unwrap() as nat)
    }

    /// Two states with the same balances in the slots below `n` have the
    /// same sum there.
    pub proof fn lemma_sum_same(self, other: State, n: nat)
        requires
            forall|slot: u32| slot < n ==> self.slot_balance(slot) == other.slot_balance(slot),
        ensures
            self.sum_below(n) == other.sum_below(n),
        decreases n,
    {
        if n > 0 {
            self.lemma_sum_same(other, (n - 1) as nat);
        }
    }

    /// Two states that differ in one slot below `n` differ in the sum by what
    /// they differ in that slot.
    pub proof fn lemma_sum_one_slot(self, other: State, n: nat, k: u32)
        requires
            n <= u32::MAX + 1,
            k < n,
            forall|slot: u32|
                slot < n && slot != k ==> self.slot_balance(slot) == other.slot_balance(slot),
        ensures
            self.sum_below(n) - self.slot_balance(k) == other.sum_below(n) - other.slot_balance(k),
        decreases n,
    {
        if n - 1 == k {
            self.lemma_sum_same(other, (n - 1) as nat);
        } else {
            self.lemma_sum_one_slot(other, (n - 1) as nat, k);
        }
    }

    /// In a ledger that is in order, an account holds a slot exactly where
    /// it holds a balance, and no other slot holds it.
    pub proof fn lemma_slot_of(self, who: Seq<char>)
        requires
            self.consistent(),
        ensures
            self.balance(who) is Some,
            self.balance(who) != Some(0u128) <==> self.user_index_reverse.contains_key(who),
            forall|slot: u32|
                slot < self.user_count.unwrap() && #[trigger] self.user_index[slot] == Some(who)
                    ==> self.user_index_reverse.contains_key(who) && self.user_index_reverse[who]
                    == Some(slot),
    {
        assert(self.users.contains_key(who) <==> self.user_index_reverse.contains_key(who));
    }

    /// A deposit keeps the ledger in order.
    pub proof fn lemma_deposit_consistent(self, who: Seq<char>, amount: u128)
        requires
            self.consistent(),
            self.deposit(who, amount) is Ok,
        ensures
            self.deposit(who, amount)->Ok_0.consistent(),
    {
        let next = self.deposit(who, amount)->Ok_0;
        let count = self.user_count.unwrap();
        let held = self.balance(who).unwrap();
        self.lemma_slot_of(who);
        if held != 0 {
            let k = self.user_index_reverse[who].unwrap();
            assert forall|slot: u32| slot < count && slot != k implies self.slot_balance(slot)
                == next.slot_balance(slot) by {
                let a = self.user_index[slot].unwrap();
                assert(self.user_index_reverse[a] == Some(slot));
            }
            assert(self.user_index[k] == Some(who));
            self.lemma_sum_one_slot(next, count as nat, k);
            assert(next.index_compact());
            assert(next.balances_indexed());
        } else {
            assert forall|slot: u32| slot < count implies self.slot_balance(slot)
                == next.slot_balance(slot) by {
                let a = self.user_index[slot].unwrap();
                assert(self.user_index_reverse.contains_key(a));
            }
            self.lemma_sum_same(next, count as nat);
            assert(next.slot_funded(count));
            assert(next.index_compact());
            assert(next.balances_indexed());
        }
    }

    /// Taking an account out of a compact index leaves the index compact,
    /// one slot shorter where the account held one. The last slot goes; its
    /// account takes the slot of the account that left, unless that was the
    /// last; every other slot keeps its account.
    pub proof fn lemma_removal_compact(self, who: Seq<char>)
        requires
            self.index_compact(),
        ensures
            self.remove_from_index(who) matches Ok(next) && next.index_compact()
                && !next.user_index_reverse.contains_key(who) && next.user_count == Some(
                if self.user_index_reverse.contains_key(who) {
                    (self.user_count.unwrap() - 1) as u32
                } else {
                    self.user_count.unwrap()
                },
            ),
            !self.user_index_reverse.contains_key(who) ==> self.remove_from_index(who)
                == Ok::<State, ErrorKind>(self),
            self.user_index_reverse.contains_key(who) ==> ({
                let next = self.remove_from_index(who)->Ok_0;
                let vacated = self.user_index_reverse[who].unwrap();
                let last = (self.user_count.unwrap() - 1) as u32;
                &&& !next.user_index.contains_key(last)
                &&& vacated != last ==> next.user_index[vacated] == self.user_index[last]
                &&& forall|slot: u32|
                    slot < last && slot != vacated ==> #[trigger] next.user_index[slot]
                        == self.user_index[slot]
            }),
    {
        let count = self.user_count.unwrap();
        if self.user_index_reverse.contains_key(who) {
            let k = self.user_index_reverse[who].unwrap();
            let last = (count - 1) as u32;
            assert(self.user_index.contains_key(last));
            let next = self.remove_from_index(who)->Ok_0;
            if k != last {
                let mover = self.user_index[last].unwrap();
                assert(self.user_index_reverse[mover] == Some(last));
                assert forall|slot: u32| slot < last implies {
                    &&& #[trigger] next.user_index[slot] matches Some(a)
                    &&& next.user_index_reverse.contains_key(a)
                    &&& next.user_index_reverse[a] == Some(slot)
                } by {
                    if slot != k {
                        let a = self.user_index[slot].unwrap();
                        assert(self.user_index_reverse[a] == Some(slot));
                    }
                }
            } else {
                assert forall|slot: u32| slot < last implies {
                    &&& #[trigger] next.user_index[slot] matches Some(a)
                    &&& next.user_index_reverse.contains_key(a)
                    &&& next.user_index_reverse[a] == Some(slot)
                } by {
                    let a = self.user_index[slot].unwrap();
                    assert(self.user_index_reverse[a] == Some(slot));
                }
            }
            assert(next.index_compact());
        }
    }

    /// A withdrawal keeps the ledger in order.
    pub proof fn lemma_withdraw_consistent(self, who: Seq<char>, amount: u128)
        requires
            self.consistent(),
            self.withdraw(who, amount) is Ok,
        ensures
            self.withdraw(who, amount)->Ok_0.consistent(),
    {
        let next = self.withdraw(who, amount)->Ok_0;
        let count = self.user_count.unwrap();
        let held = self.balance(who).unwrap();
        self.lemma_slot_of(who);
        let k = self.user_index_reverse[who].unwrap();
        assert(self.user_index[k] == Some(who));
        if held != amount {
            assert forall|slot: u32| slot < count && slot != k implies self.slot_balance(slot)
                == next.slot_balance(slot) by {
                let a = self.user_index[slot].unwrap();
                assert(self.user_index_reverse[a] == Some(slot));
            }
            self.lemma_sum_one_slot(next, count as nat, k);
            assert(next.index_compact());
            assert(next.balances_indexed());
        } else {
            let last = (count - 1) as u32;
            self.lemma_removal_compact(who);
            let indexed = self.remove_from_index(who)->Ok_0;
            assert(next.user_index == indexed.user_index);
            assert(next.user_index_reverse == indexed.user_index_reverse);
            assert(next.user_count == indexed.user_count);
            assert(next.index_compact());
            assert(self.user_index.contains_key(last));
            let mover = self.user_index[last].unwrap();
            assert(self.user_index_reverse[mover] == Some(last));
            assert(next.balances_indexed());
            if k != last {
                assert forall|slot: u32| slot < last && slot != k implies self.slot_balance(slot)
                    == next.slot_balance(slot) by {
                    let a = self.user_index[slot].unwrap();
                    assert(self.user_index_reverse[a] == Some(slot));
                }
                self.lemma_sum_one_slot(next, last as nat, k);
                assert(next.slot_balance(k) == self.slot_balance(last));
            } else {
                assert forall|slot: u32| slot < last implies self.slot_balance(slot)
                    == next.slot_balance(slot) by {
                    let a = self.user_index[slot].unwrap();
                    assert(self.user_index_reverse[a] == Some(slot));
                }
                self.lemma_sum_same(next, last as nat);
            }
        }
    }

    /// A state without accounts and slots, with a count and a total of
    /// nothing, is in order: that is the state after the set-up of a fresh
    /// store.
    pub proof fn lemma_fresh_consistent(self)
        requires
            self.vacant(),
            self.total_deposits == Some(0u128),
            self.user_count == Some(0u32),
        ensures
            self.consistent(),
    {
    }

    /// An announcement keeps the ledger in order, and the announced time
    /// lies at least seven days after the announcement.
    pub proof fn lemma_timelock(self, destination: Seq<char>, unlock: u64, now: u64)
        requires
            self.configure_timelock(destination, unlock, now) is Ok,
        ensures
            unlock >= now + crate::ledger::MIN_WITHDRAWAL_DELAY,
            self.configure_timelock(destination, unlock, now)->Ok_0.withdrawal_unlock_timestamp
                == Some(unlock),
            self.configure_timelock(destination, unlock, now)->Ok_0.withdrawal_destination == Some(
                Some(destination),
            ),
            self.consistent() ==> self.configure_timelock(destination, unlock, now)->Ok_0
                .consistent(),
    {
        let next = self.configure_timelock(destination, unlock, now)->Ok_0;
        if self.consistent() {
            self.lemma_sum_same(next, self.user_count.unwrap() as nat);
        }
    }

    /// Once a sweep is announced, it is granted from the announced time on,
    /// to the announced destination and for the whole pool, and not before.
    pub proof fn lemma_sweep_after_announcement(
        self,
        destination: Seq<char>,
        unlock: u64,
        announced_at: u64,
        now: u64,
        pool: CoinView,
    )
        requires
            self.configure_timelock(destination, unlock, announced_at) is Ok,
            pool.amount > 0,
        ensures
            ({
                let next = self.configure_timelock(destination, unlock, announced_at)->Ok_0;
                &&& now >= unlock ==> next.authorize_sweep(now, Some(pool)) == Ok::<
                    (Seq<char>, CoinView),
                    ErrorKind,
                >((destination, pool))
                &&& now < unlock ==> next.authorize_sweep(now, Some(pool)) == Err::<
                    (Seq<char>, CoinView),
                    ErrorKind,
                >(ErrorKind::WithdrawalNotUnlocked)
            }),
    {
    }

    /// In a ledger that is in order, every slot below the count holds an
    /// account with a balance, and the scan finds nothing wrong with it.
    pub proof fn lemma_slot_in_order(self, slot: u32)
        requires
            self.consistent(),
            slot < self.user_count.unwrap(),
        ensures
            self.slot_funded(slot),
            !self.slot_unreadable(slot),
            !self.slot_unlistable(slot),
            self.slot_issues(slot) == Seq::<Seq<char>>::empty(),
    {
        let who = self.user_index[slot].unwrap();
        assert(self.user_index_reverse.contains_key(who));
        assert(self.users.contains_key(who));
        assert(self.balance_issues(who, slot) + self.reverse_issues(who, slot) =~= Seq::<
            Seq<char>,
        >::empty());
    }

    proof fn lemma_scan_in_order(self, n: nat)
        requires
            self.consistent(),
            n <= self.user_count.unwrap(),
        ensures
            self.issues_below(n) == Seq::<Seq<char>>::empty(),
            self.funded_below(n) == n,
            self.filled_below(n) == n,
        decreases n,
    {
        if n > 0 {
            self.lemma_scan_in_order((n - 1) as nat);
            self.lemma_slot_in_order((n - 1) as u32);
            assert(self.issues_below((n - 1) as nat) + self.slot_issues((n - 1) as u32) =~= Seq::<
                Seq<char>,
            >::empty());
        }
    }

    /// The scan of a ledger that is in order finds nothing: it reports the
    /// ledger consistent, and all three counts agree.
    pub proof fn lemma_audit_in_order(self)
        requires
            self.consistent(),
        ensures
            self.audit() == Some(
                AuditView {
                    is_consistent: true,
                    issues: Seq::<Seq<char>>::empty(),
                    user_count_stored: self.user_count.unwrap(),
                    user_count_actual: self.user_count.unwrap(),
                    total_users_in_index: self.user_count.unwrap(),
                },
            ),
    {
        let count = self.user_count.unwrap();
        self.lemma_scan_in_order(count as nat);
        assert forall|slot: u32| slot < count implies !self.slot_unreadable(slot) by {
            self.lemma_slot_in_order(slot);
        }
        assert(self.issues_below(count as nat) + Seq::<Seq<char>>::empty() =~= Seq::<
            Seq<char>,
        >::empty());
    }

    /// In a ledger that is in order, a listing holds every slot that it
    /// covers, each with its account and that account's balance.
    pub proof fn lemma_listed_in_order(self, from: nat, to: nat)
        requires
            self.consistent(),
            from <= to <= self.user_count.unwrap(),
        ensures
            self.listed(from, to).len() == to - from,
            forall|i: int|
                0 <= i < to - from ==> #[trigger] self.listed(from, to)[i] == (
                    self.user_index[(from + i) as u32].unwrap(),
                    self.users[self.user_index[(from + i) as u32].unwrap()].unwrap(),
                ),
        decreases to,
    {
        if to > from {
            self.lemma_listed_in_order(from, (to - 1) as nat);
            self.lemma_slot_in_order((to - 1) as u32);
        }
    }

    /// Paging through a ledger that is in order. A page holds the slots
    /// from its start on, as many as the limit allows and the index has. It
    /// carries a cursor exactly where slots remain behind it, and the page
    /// asked for with that cursor begins at the very next slot: no account
    /// is listed twice and none is left out.
    pub proof fn lemma_page_in_order(self, start_after: Option<Seq<char>>, limit: Option<u32>)
        requires
            self.consistent(),
            self.page_start(start_after) is Ok,
        ensures
            ({
                let start = self.page_start(start_after)->Ok_0;
                let count = self.user_count.unwrap() as nat;
                let room = page_limit(limit);
                let end = if start + room < count {
                    start + room
                } else {
                    count
                };
                &&& start <= count
                &&& self.page(start_after, limit) matches Ok(page)
                &&& page.users == self.listed(start, end)
                &&& page.users.len() == end - start
                &&& page.next is Some <==> room > 0 && start + room < count
                &&& page.next matches Some(cursor) ==> self.page_start(Some(cursor)) == Ok::<
                    nat,
                    ErrorKind,
                >(end)
            }),
    {
        let start = self.page_start(start_after)->Ok_0;
        let count = self.user_count.unwrap() as nat;
        let room = page_limit(limit);
        let end = if start + room < count {
            start + room
        } else {
            count
        };
        assert forall|slot: u32| start <= slot < count implies !self.slot_unlistable(slot) by {
            self.lemma_slot_in_order(slot);
        }
        self.lemma_listed_in_order(start, count);
        self.lemma_listed_in_order(start, end);
        self.lemma_listed_prefix(start, end, count);
        let all = self.listed(start, count);
        assert(all.take(all.len() as int) =~= all);
        if count > 0 && start <= count - 1 {
            self.lemma_listed_in_order(start, (count - 1) as nat);
        }
        if room > 0 && start + room < count {
            let last = (end - 1) as u32;
            self.lemma_slot_in_order(last);
            assert(self.listed(start, end)[end - start - 1].0 == self.user_index[last].unwrap());
        }
    }

    /// A deposit of nothing is refused.
    pub proof fn lemma_deposit_nothing(self, who: Seq<char>)
        ensures
            self.deposit(who, 0) == Err::<State, ErrorKind>(ErrorKind::InvalidAmount),
    {
    }

    /// What a deposit changes: the balance of the account and the total
    /// grow by the amount, and no other balance moves.
    pub proof fn lemma_deposit_credits(self, who: Seq<char>, amount: u128)
        requires
            self.deposit(who, amount) is Ok,
        ensures
            self.deposit(who, amount)->Ok_0.balance(who) == Some(
                (self.balance(who).unwrap() + amount) as u128,
            ),
            self.deposit(who, amount)->Ok_0.total_deposits == Some(
                (self.total_deposits.unwrap() + amount) as u128,
            ),
            forall|other: Seq<char>|
                other != who ==> #[trigger] self.deposit(who, amount)->Ok_0.balance(other)
                    == self.balance(other),
    {
    }

    /// Two deposits of one account in a row add up, and the second takes no
    /// slot: the index is after it what it was after the first.
    pub proof fn lemma_deposit_twice(self, who: Seq<char>, first: u128, second: u128)
        requires
            self.deposit(who, first) is Ok,
            self.deposit(who, first)->Ok_0.deposit(who, second) is Ok,
        ensures
            ({
                let once = self.deposit(who, first)->Ok_0;
                let twice = once.deposit(who, second)->Ok_0;
                &&& twice.balance(who) == Some(
                    (self.balance(who).unwrap() + first + second) as u128,
                )
                &&& twice.user_count == once.user_count
                &&& twice.user_index == once.user_index
                &&& twice.user_index_reverse == once.user_index_reverse
            }),
    {
    }

    proof fn lemma_sum_covers(self, n: nat, k: u32)
        requires
            k < n,
        ensures
            self.slot_balance(k) <= self.sum_below(n),
        decreases n,
    {
        if n - 1 != k {
            self.lemma_sum_covers((n - 1) as nat, k);
        }
    }

    /// In a ledger that is in order, an account can withdraw whatever it
    /// holds, in part or in full.
    pub proof fn lemma_withdraw_owed(self, who: Seq<char>, amount: u128)
        requires
            self.consistent(),
            0 < amount <= self.balance(who).unwrap(),
        ensures
            self.withdraw(who, amount) is Ok,
    {
        self.lemma_slot_of(who);
        let k = self.user_index_reverse[who].unwrap();
        assert(self.user_index[k] == Some(who));
        self.lemma_sum_covers(self.user_count.unwrap() as nat, k);
        self.lemma_removal_compact(who);
    }

    /// What a withdrawal changes: the balance of the account and the total
    /// shrink by the amount, and no other balance moves.
    pub proof fn lemma_withdraw_debits(self, who: Seq<char>, amount: u128)
        requires
            self.withdraw(who, amount) is Ok,
        ensures
            self.withdraw(who, amount)->Ok_0.balance(who) == Some(
                (self.balance(who).unwrap() - amount) as u128,
            ),
            self.withdraw(who, amount)->Ok_0.total_deposits == Some(
                (self.total_deposits.unwrap() - amount) as u128,
            ),
            forall|other: Seq<char>|
                other != who ==> #[trigger] self.withdraw(who, amount)->Ok_0.balance(other)
                    == self.balance(other),
    {
    }

    /// Once an account has withdrawn all it held, it holds no slot: the
    /// count is one less, a further withdrawal is refused for want of
    /// balance, and the account no longer serves as a cursor.
    pub proof fn lemma_withdraw_all(self, who: Seq<char>, limit: Option<u32>, again: u128)
        requires
            self.consistent(),
            self.balance(who) matches Some(held) && held > 0 && self.withdraw(who, held) is Ok,
            again > 0,
        ensures
            ({
                let next = self.withdraw(who, self.balance(who).unwrap())->Ok_0;
                &&& next.balance(who) == Some(0u128)
                &&& next.user_count == Some((self.user_count.unwrap() - 1) as u32)
                &&& next.withdraw(who, again) == Err::<State, ErrorKind>(
                    ErrorKind::InsufficientBalance,
                )
                &&& next.page(Some(who), limit) == Err::<PageView, ErrorKind>(
                    ErrorKind::StartAfterUserNotFound,
                )
            }),
    {
        self.lemma_slot_of(who);
        self.lemma_removal_compact(who);
    }

    /// The accounts in the slots below `n`.
    pub open spec fn accounts_below(self, n: nat) -> Set<Seq<char>> {
        Set::new(
            |who: Seq<char>|
                exists|slot: u32|
                    slot < n && self.user_index.contains_key(slot) && #[trigger] self.user_index[slot]
                        == Some(who),
        )
    }

    proof fn lemma_accounts_below(self, n: nat)
        requires
            self.index_compact(),
            n <= self.user_count.unwrap(),
        ensures
            self.accounts_below(n).finite(),
            self.accounts_below(n).len() == n,
        decreases n,
    {
        if n == 0 {
            assert(self.accounts_below(0) =~= Set::<Seq<char>>::empty());
        } else {
            let top = (n - 1) as u32;
            let who = self.user_index[top].unwrap();
            self.lemma_accounts_below((n - 1) as nat);
            assert(self.user_index.contains_key(top));
            assert(self.user_index_reverse[who] == Some(top));
            assert(!self.accounts_below((n - 1) as nat).contains(who)) by {
                if self.accounts_below((n - 1) as nat).contains(who) {
                    let slot = choose|slot: u32|
                        slot < n - 1 && self.user_index.contains_key(slot)
                            && #[trigger] self.user_index[slot] == Some(who);
                    assert(self.user_index_reverse[who] == Some(slot));
                }
            }
            assert(self.accounts_below(n) =~= self.accounts_below((n - 1) as nat).insert(who)) by {
                assert forall|a: Seq<char>|
                    self.accounts_below(n).contains(a) implies self.accounts_below(
                    (n - 1) as nat,
                ).insert(who).contains(a) by {
                    let slot = choose|slot: u32|
                        slot < n && self.user_index.contains_key(slot)
                            && #[trigger] self.user_index[slot] == Some(a);
                    if slot != top {
                        assert(slot < n - 1);
                    }
                }
                assert(self.user_index[top] == Some(who));
            }
        }
    }

    /// In a ledger that is in order, the count is the number of slots, the
    /// number of accounts with a way back, and the number of accounts that
    /// hold a balance.
    pub proof fn lemma_counts(self)
        requires
            self.consistent(),
        ensures
            self.user_index.dom().finite(),
            self.user_index.dom().len() == self.user_count.unwrap(),
            self.user_index_reverse.dom().finite(),
            self.user_index_reverse.dom().len() == self.user_count.unwrap(),
            self.users.dom().finite(),
            self.users.dom().len() == self.user_count.unwrap(),
            self.users.dom() == self.accounts_below(self.user_count.unwrap() as nat),
            forall|who: Seq<char>| #[trigger]
                self.users.dom().contains(who) <==> self.balance(who).unwrap() > 0,
    {
        let count = self.user_count.unwrap();
        lemma_slots_below(count as nat);
        assert(self.user_index.dom() =~= slots_below(count as nat));
        self.lemma_accounts_below(count as nat);
        assert(self.user_index_reverse.dom() =~= self.accounts_below(count as nat)) by {
            assert forall|who: Seq<char>|
                self.user_index_reverse.dom().contains(who) implies self.accounts_below(
                count as nat,
            ).contains(who) by {
                let slot = self.user_index_reverse[who].unwrap();
                assert(self.user_index[slot] == Some(who));
                assert(self.user_index.contains_key(slot));
            }
            assert forall|who: Seq<char>|
                self.accounts_below(count as nat).contains(
                    who,
                ) implies self.user_index_reverse.dom().contains(who) by {
                let slot = choose|slot: u32|
                    slot < count && self.user_index.contains_key(slot)
                        && #[trigger] self.user_index[slot] == Some(who);
                assert(self.user_index_reverse.contains_key(who));
            }
        }
        assert(self.users.dom() =~= self.user_index_reverse.dom()) by {
            assert forall|who: Seq<char>|
                self.users.dom().contains(who) == self.user_index_reverse.dom().contains(who) by {
                assert(self.users.contains_key(who) <==> self.user_index_reverse.contains_key(who));
            }
        }
        assert forall|who: Seq<char>| #[trigger]
            self.users.dom().contains(who) <==> self.balance(who).unwrap() > 0 by {
            assert(self.users.contains_key(who) == self.users.dom().contains(who));
        }
    }
}

/// The slot numbers below `n`.
pub open spec fn slots_below(n: nat) -> Set<u32> {
    Set::new(|slot: u32| slot < n)
}

proof fn lemma_slots_below(n: nat)
    requires
        n <= u32::MAX + 1,
    ensures
        slots_below(n).finite(),
        slots_below(n).len() == n,
    decreases n,
{
    if n == 0 {
        assert(slots_below(0) =~= Set::<u32>::empty());
    } else {
        lemma_slots_below((n - 1) as nat);
        assert(slots_below(n) =~= slots_below((n - 1) as nat).insert((n - 1) as u32));
    }
}

} // verus!
