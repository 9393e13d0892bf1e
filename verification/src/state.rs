//! The persisted state: the configuration record, and the key-value store
//! with the typed cells that the ledger keeps in it.
//!
//! The store belongs to `cosmwasm_std`; its cells are read and written through
//! `cw_storage_plus`. Nothing in this file is proved: the contracts below say
//! what those two crates do, and everything else in the library is proved from
//! them.

use vstd::prelude::*;
use cosmwasm_std::{Addr, StdError, Uint128};
use cw_storage_plus::Item;

verus! {

/// Who owns the ledger, and which denomination it accepts.
#[derive(Clone, Debug)]
pub struct Config {
    pub owner: String,
    pub ustc_denom: String,
}

pub struct ConfigView {
    pub owner: Seq<char>,
    pub ustc_denom: Seq<char>,
}

impl View for Config {
    type V = ConfigView;

    open spec fn view(&self) -> ConfigView {
        ConfigView { owner: self.owner@, ustc_denom: self.ustc_denom@ }
    }
}

/// A borrowed `cosmwasm_std::Storage`. Verus sees nothing inside it; what its
/// cells hold is named by the seven functions below.
///
/// The contracts in this file are those of a storage that keeps what it is
/// given: `get` returns what was last `set` under a key, and nothing once the
/// key was removed. `MemoryStorage` is one, and so is the storage that a
/// host hands to a contract.
#[verifier::external_body]
pub struct Store<'a> {
    inner: &'a mut dyn cosmwasm_std::Storage,
}

/// The map "users": the balance of each account that has a cell. `None`
/// stands for a cell whose bytes are not the JSON of a `Uint128`.
pub uninterp spec fn users(s: Store) -> Map<Seq<char>, Option<u128>>;

/// The item "total_deposits"; `None` where it is missing or does not parse.
pub uninterp spec fn total_deposits(s: Store) -> Option<u128>;

/// The item "user_count"; `None` where it is missing or does not parse.
pub uninterp spec fn user_count(s: Store) -> Option<u32>;

/// The map "user_idx": the account in each slot that has a cell. `None`
/// stands for a cell whose bytes are not the JSON of an `Addr`.
pub uninterp spec fn user_index(s: Store) -> Map<u32, Option<Seq<char>>>;

/// The map "user_idx_rev": the slot of each account that has a cell. `None`
/// stands for a cell whose bytes are not the JSON of a `u32`.
pub uninterp spec fn user_index_reverse(s: Store) -> Map<Seq<char>, Option<u32>>;

/// The item "withdrawal_dest"; the outer `None` where it is missing or does
/// not parse, `Some(None)` where it holds no destination.
pub uninterp spec fn withdrawal_destination(s: Store) -> Option<Option<Seq<char>>>;

/// The item "withdrawal_unlock"; `None` where it is missing or does not parse.
pub uninterp spec fn withdrawal_unlock_timestamp(s: Store) -> Option<u64>;

/// Everything the ledger keeps in a store.
pub struct State {
    pub users: Map<Seq<char>, Option<u128>>,
    pub total_deposits: Option<u128>,
    pub user_count: Option<u32>,
    pub user_index: Map<u32, Option<Seq<char>>>,
    pub user_index_reverse: Map<Seq<char>, Option<u32>>,
    pub withdrawal_destination: Option<Option<Seq<char>>>,
    pub withdrawal_unlock_timestamp: Option<u64>,
}

impl<'a> View for Store<'a> {
    type V = State;

    open spec fn view(&self) -> State {
        State {
            users: users(*self),
            total_deposits: total_deposits(*self),
            user_count: user_count(*self),
            user_index: user_index(*self),
            user_index_reverse: user_index_reverse(*self),
            withdrawal_destination: withdrawal_destination(*self),
            withdrawal_unlock_timestamp: withdrawal_unlock_timestamp(*self),
        }
    }
}

/// `Uint128::checked_add`: the sum, or an error where it does not fit in
/// 128 bits.
#[verifier::external_body]
pub(crate) fn uint128_checked_add(a: u128, b: u128) -> (r: Result<u128, StdError>)
    ensures
        match r {
            Ok(sum) => sum == a + b,
            Err(_) => a + b > u128::MAX,
        },
{
    Uint128::new(a).checked_add(Uint128::new(b)).map(|sum| sum.u128()).map_err(StdError::from)
}

/// `Uint128::checked_sub`: the difference, or an error where it would be
/// negative.
#[verifier::external_body]
pub(crate) fn uint128_checked_sub(a: u128, b: u128) -> (r: Result<u128, StdError>)
    ensures
        match r {
            Ok(difference) => difference == a - b,
            Err(_) => a < b,
        },
{
    Uint128::new(a).checked_sub(Uint128::new(b)).map(|difference| difference.u128()).map_err(
        StdError::from,
    )
}

impl<'a> Store<'a> {
    /// Borrows a storage for the ledger. Nothing is read or written, and
    /// nothing is known of what the storage holds.
    #[verifier::external_body]
    pub fn new<S: cosmwasm_std::Storage>(storage: &'a mut S) -> (store: Store<'a>) {
        Store { inner: storage }
    }

    /// `Map::may_load` on "users": `Ok(None)` where the account has no cell,
    /// the balance where the cell parses, an error where it does not.
    #[verifier::external_body]
    pub(crate) fn users_may_load(&self, user: &str) -> (r: Result<Option<u128>, StdError>)
        ensures
            match r {
                Ok(Some(v)) => users(*self).contains_key(user@) && users(*self)[user@] == Some(v),
                Ok(None) => !users(*self).contains_key(user@),
                Err(_) => users(*self).contains_key(user@) && users(*self)[user@] is None,
            },
    {
        cw_storage_plus::Map::<&Addr, Uint128>::new("users")
            .may_load(&*self.inner, &Addr::unchecked(user))
            .map(|found| found.map(|v| v.u128()))
    }

    /// `Map::save` on "users": the account's cell then holds the balance and
    /// every other cell is as before. Writing the JSON of a `Uint128`, a
    /// quoted decimal number, cannot fail.
    #[verifier::external_body]
    pub(crate) fn users_save(&mut self, user: &str, amount: u128) -> (r: Result<(), StdError>)
        ensures
            r is Ok,
            final(self)@ == (State {
                users: old(self)@.users.insert(user@, Some(amount)),
                ..old(self)@
            }),
    {
        cw_storage_plus::Map::<&Addr, Uint128>::new("users").save(
            &mut *self.inner,
            &Addr::unchecked(user),
            &Uint128::new(amount),
        )
    }

    /// `Map::remove` on "users": the account has no cell afterwards and every
    /// other cell is as before.
    #[verifier::external_body]
    pub(crate) fn users_remove(&mut self, user: &str)
        ensures
            final(self)@ == (State { users: old(self)@.users.remove(user@), ..old(self)@ }),
    {
        cw_storage_plus::Map::<&Addr, Uint128>::new("users").remove(
            &mut *self.inner,
            &Addr::unchecked(user),
        )
    }

    /// `Item::load` on "total_deposits": the total where the item is there and
    /// parses, an error otherwise.
    #[verifier::external_body]
    pub(crate) fn total_deposits_load(&self) -> (r: Result<u128, StdError>)
        ensures
            match r {
                Ok(v) => total_deposits(*self) == Some(v),
                Err(_) => total_deposits(*self) is None,
            },
    {
        Item::<Uint128>::new("total_deposits").load(&*self.inner).map(|v| v.u128())
    }

    /// `Item::save` on "total_deposits": the item then holds the total and
    /// every other cell is as before. It cannot fail, as in `users_save`.
    #[verifier::external_body]
    pub(crate) fn total_deposits_save(&mut self, total: u128) -> (r: Result<(), StdError>)
        ensures
            r is Ok,
            final(self)@ == (State { total_deposits: Some(total), ..old(self)@ }),
    {
        Item::<Uint128>::new("total_deposits").save(&mut *self.inner, &Uint128::new(total))
    }

    /// `Item::load` on "user_count": the count where the item is there and
    /// parses, an error otherwise.
    #[verifier::external_body]
    pub(crate) fn user_count_load(&self) -> (r: Result<u32, StdError>)
        ensures
            match r {
                Ok(v) => user_count(*self) == Some(v),
                Err(_) => user_count(*self) is None,
            },
    {
        Item::<u32>::new("user_count").load(&*self.inner)
    }

    /// `Item::save` on "user_count": the item then holds the count and every
    /// other cell is as before. Writing the digits of a `u32` cannot fail.
    #[verifier::external_body]
    pub(crate) fn user_count_save(&mut self, count: u32) -> (r: Result<(), StdError>)
        ensures
            r is Ok,
            final(self)@ == (State { user_count: Some(count), ..old(self)@ }),
    {
        Item::<u32>::new("user_count").save(&mut *self.inner, &count)
    }

    /// `Map::may_load` on "user_idx": `Ok(None)` where the slot has no cell,
    /// the account where the cell parses, an error where it does not.
    #[verifier::external_body]
    pub(crate) fn user_index_may_load(&self, slot: u32) -> (r: Result<Option<String>, StdError>)
        ensures
            match r {
                Ok(Some(a)) => user_index(*self).contains_key(slot) && user_index(*self)[slot]
                    == Some(a@),
                Ok(None) => !user_index(*self).contains_key(slot),
                Err(_) => user_index(*self).contains_key(slot) && user_index(*self)[slot] is None,
            },
    {
        cw_storage_plus::Map::<u32, Addr>::new("user_idx")
            .may_load(&*self.inner, slot)
            .map(|found| found.map(|a| a.into_string()))
    }

    /// `Map::save` on "user_idx": the slot's cell then holds the account and
    /// every other cell is as before. Writing the JSON of a string cannot
    /// fail.
    #[verifier::external_body]
    pub(crate) fn user_index_save(&mut self, slot: u32, user: &str) -> (r: Result<(), StdError>)
        ensures
            r is Ok,
            final(self)@ == (State {
                user_index: old(self)@.user_index.insert(slot, Some(user@)),
                ..old(self)@
            }),
    {
        cw_storage_plus::Map::<u32, Addr>::new("user_idx").save(
            &mut *self.inner,
            slot,
            &Addr::unchecked(user),
        )
    }

    /// `Map::remove` on "user_idx": the slot has no cell afterwards and every
    /// other cell is as before.
    #[verifier::external_body]
    pub(crate) fn user_index_remove(&mut self, slot: u32)
        ensures
            final(self)@ == (State {
                user_index: old(self)@.user_index.remove(slot),
                ..old(self)@
            }),
    {
        cw_storage_plus::Map::<u32, Addr>::new("user_idx").remove(&mut *self.inner, slot)
    }

    /// `Map::may_load` on "user_idx_rev": `Ok(None)` where the account has no
    /// cell, the slot where the cell parses, an error where it does not.
    #[verifier::external_body]
    pub(crate) fn user_index_reverse_may_load(&self, user: &str) -> (r: Result<
        Option<u32>,
        StdError,
    >)
        ensures
            match r {
                Ok(Some(v)) => user_index_reverse(*self).contains_key(user@)
                    && user_index_reverse(*self)[user@] == Some(v),
                Ok(None) => !user_index_reverse(*self).contains_key(user@),
                Err(_) => user_index_reverse(*self).contains_key(user@)
                    && user_index_reverse(*self)[user@] is None,
            },
    {
        cw_storage_plus::Map::<&Addr, u32>::new("user_idx_rev").may_load(
            &*self.inner,
            &Addr::unchecked(user),
        )
    }

    /// `Map::save` on "user_idx_rev": the account's cell then holds the slot
    /// and every other cell is as before. It cannot fail, as in
    /// `user_count_save`.
    #[verifier::external_body]
    pub(crate) fn user_index_reverse_save(&mut self, user: &str, slot: u32) -> (r: Result<
        (),
        StdError,
    >)
        ensures
            r is Ok,
            final(self)@ == (State {
                user_index_reverse: old(self)@.user_index_reverse.insert(user@, Some(slot)),
                ..old(self)@
            }),
    {
        cw_storage_plus::Map::<&Addr, u32>::new("user_idx_rev").save(
            &mut *self.inner,
            &Addr::unchecked(user),
            &slot,
        )
    }

    /// `Map::remove` on "user_idx_rev": the account has no cell afterwards and
    /// every other cell is as before.
    #[verifier::external_body]
    pub(crate) fn user_index_reverse_remove(&mut self, user: &str)
        ensures
            final(self)@ == (State {
                user_index_reverse: old(self)@.user_index_reverse.remove(user@),
                ..old(self)@
            }),
    {
        cw_storage_plus::Map::<&Addr, u32>::new("user_idx_rev").remove(
            &mut *self.inner,
            &Addr::unchecked(user),
        )
    }

    /// `Item::load` on "withdrawal_dest": the destination, or its absence,
    /// where the item is there and parses; an error otherwise.
    #[verifier::external_body]
    pub(crate) fn withdrawal_destination_load(&self) -> (r: Result<Option<String>, StdError>)
        ensures
            match r {
                Ok(Some(d)) => withdrawal_destination(*self) == Some(Some(d@)),
                Ok(None) => withdrawal_destination(*self) == Some(None::<Seq<char>>),
                Err(_) => withdrawal_destination(*self) is None,
            },
    {
        Item::<Option<Addr>>::new("withdrawal_dest")
            .load(&*self.inner)
            .map(|found| found.map(|a| a.into_string()))
    }

    /// `Item::save` on "withdrawal_dest": the item then holds the destination,
    /// or its absence, and every other cell is as before. Writing `null` or
    /// the JSON of a string cannot fail.
    #[verifier::external_body]
    pub(crate) fn withdrawal_destination_save(&mut self, destination: Option<&str>) -> (r: Result<
        (),
        StdError,
    >)
        ensures
            r is Ok,
            final(self)@ == (State {
                withdrawal_destination: Some(
                    match destination {
                        Some(d) => Some(d@),
                        None => None,
                    },
                ),
                ..old(self)@
            }),
    {
        Item::<Option<Addr>>::new("withdrawal_dest").save(
            &mut *self.inner,
            &destination.map(|d| Addr::unchecked(d)),
        )
    }

    /// `Item::load` on "withdrawal_unlock": the time where the item is there
    /// and parses, an error otherwise.
    #[verifier::external_body]
    pub(crate) fn withdrawal_unlock_timestamp_load(&self) -> (r: Result<u64, StdError>)
        ensures
            match r {
                Ok(v) => withdrawal_unlock_timestamp(*self) == Some(v),
                Err(_) => withdrawal_unlock_timestamp(*self) is None,
            },
    {
        Item::<u64>::new("withdrawal_unlock").load(&*self.inner)
    }

    /// `Item::save` on "withdrawal_unlock": the item then holds the time and
    /// every other cell is as before. Writing the digits of a `u64` cannot
    /// fail.
    #[verifier::external_body]
    pub(crate) fn withdrawal_unlock_timestamp_save(&mut self, unlock: u64) -> (r: Result<
        (),
        StdError,
    >)
        ensures
            r is Ok,
            final(self)@ == (State { withdrawal_unlock_timestamp: Some(unlock), ..old(self)@ }),
    {
        Item::<u64>::new("withdrawal_unlock").save(&mut *self.inner, &unlock)
    }
}

} // verus!
