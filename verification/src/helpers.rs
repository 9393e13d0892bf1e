//! Checks that the operations share, and the removal of an account from the
//! index.

use vstd::prelude::*;
use vstd::string::StringExecFns;
use crate::audit::{
    index_mismatch_text, missing_forward_text, missing_reverse_text, user_mismatch_text, LinkCheck,
};
use crate::error::{generic_err, generic_error, ContractError, ErrorKind};
use crate::ledger::Removal;
use crate::msg::{Coin, CoinView, MessageInfo};
use crate::state::{Config, Store};
use crate::text::decimal_string;

verus! {

/// The amount that the funds of a call carry: they must be one coin of the
/// expected denomination, and more than nothing.
pub open spec fn accepted_amount(funds: Seq<CoinView>, expected_denom: Seq<char>) -> Result<
    u128,
    ErrorKind,
> {
    if funds.len() == 0 {
        Err(ErrorKind::InvalidAmount)
    } else if funds.len() > 1 {
        Err(ErrorKind::Std)
    } else if funds[0].denom != expected_denom {
        Err(ErrorKind::InvalidDenom { expected: expected_denom, got: funds[0].denom })
    } else if funds[0].amount == 0 {
        Err(ErrorKind::InvalidAmount)
    } else {
        Ok(funds[0].amount)
    }
}

/// Checks that the funds are exactly one coin of the expected denomination
/// with a positive amount, and returns that amount.
pub fn validate_denom(funds: &[Coin], expected_denom: &str) -> (r: Result<u128, ContractError>)
    ensures
        match accepted_amount(funds.deep_view(), expected_denom@) {
            Ok(amount) => r == Ok::<u128, ContractError>(amount),
            Err(kind) => r matches Err(e) && e@ == kind,
        },
        funds.len() > 1 ==> r == Err::<u128, ContractError>(
            ContractError::Std(generic_error("Multiple denominations not allowed"@)),
        ),
{
    if funds.len() == 0 {
        return Err(ContractError::InvalidAmount {  });
    }
    if funds.len() > 1 {
        return Err(ContractError::Std(generic_err("Multiple denominations not allowed")));
    }
    let coin = &funds[0];
    let expected = String::from_str(expected_denom);
    if !(coin.denom == expected) {
        return Err(ContractError::InvalidDenom { expected, got: coin.denom.clone() });
    }
    if coin.amount == 0 {
        return Err(ContractError::InvalidAmount {  });
    }
    Ok(coin.amount)
}

/// Checks that the caller is the owner.
pub fn verify_owner(info: &MessageInfo, config: &Config) -> (r: Result<(), ContractError>)
    ensures
        info.sender@ == config.owner@ ==> r is Ok,
        info.sender@ != config.owner@ ==> (r matches Err(e) && e@ == ErrorKind::Unauthorized),
{
    if !(info.sender == config.owner) {
        return Err(ContractError::Unauthorized {  });
    }
    Ok(())
}

/// How an account leaves the index, once the index has been read.
pub enum IndexRemoval {
    /// It holds no slot.
    Absent,
    /// It holds the last slot.
    Last { last: u32 },
    /// It holds the slot `slot`, into which `mover`, the account of the last
    /// slot, moves.
    Swap { slot: u32, last: u32, mover: String },
}

impl View for IndexRemoval {
    type V = Removal;

    open spec fn view(&self) -> Removal {
        match *self {
            IndexRemoval::Absent => Removal::Absent,
            IndexRemoval::Last { last } => Removal::Last { last },
            IndexRemoval::Swap { slot, last, mover } => Removal::Swap { slot, last, mover: mover@ },
        }
    }
}

/// Reads what the removal of an account from the index will need, and
/// writes nothing.
pub(crate) fn plan_index_removal(store: &Store, user: &str) -> (r: Result<
    IndexRemoval,
    ContractError,
>)
    ensures
        match store@.removal(user@) {
            Ok(removal) => r matches Ok(plan) && plan@ == removal,
            Err(kind) => r matches Err(e) && e@ == kind,
        },
{
    let user_index: u32 = match store.user_index_reverse_may_load(user) {
        Err(e) => return Err(ContractError::Std(e)),
        Ok(None) => return Ok(IndexRemoval::Absent),
        Ok(Some(slot)) => slot,
    };
    let user_count: u32 = match store.user_count_load() {
        Err(e) => return Err(ContractError::Std(e)),
        Ok(count) => count,
    };
    if user_index >= user_count {
        return Err(ContractError::IndexInconsistency {  });
    }
    let last_index: u32 = user_count - 1;
    if user_index == last_index {
        return Ok(IndexRemoval::Last { last: last_index });
    }
    match store.user_index_may_load(last_index) {
        Err(e) => Err(ContractError::Std(e)),
        Ok(None) => Err(ContractError::IndexInconsistency {  }),
        Ok(Some(last_user)) => Ok(
            IndexRemoval::Swap { slot: user_index, last: last_index, mover: last_user },
        ),
    }
}

/// Writes the removal that was planned: the account of the last slot moves
/// into the vacant one, the last slot goes, the count drops by one, and the
/// account's way back goes.
pub(crate) fn apply_index_removal(store: &mut Store, user: &str, plan: IndexRemoval) -> (r: Result<
    (),
    ContractError,
>)
    ensures
        r is Ok,
        final(store)@ == old(store)@.without(user@, plan@),
{
    match plan {
        IndexRemoval::Absent => {},
        IndexRemoval::Last { last } => {
            store.user_index_remove(last);
            if let Err(e) = store.user_count_save(last) {
                return Err(ContractError::Std(e));
            }
            store.user_index_reverse_remove(user);
        },
        IndexRemoval::Swap { slot, last, mover } => {
            if let Err(e) = store.user_index_save(slot, mover.as_str()) {
                return Err(ContractError::Std(e));
            }
            if let Err(e) = store.user_index_reverse_save(mover.as_str(), slot) {
                return Err(ContractError::Std(e));
            }
            store.user_index_remove(last);
            if let Err(e) = store.user_count_save(last) {
                return Err(ContractError::Std(e));
            }
            store.user_index_reverse_remove(user);
        },
    }
    Ok(())
}

/// Takes an account out of the index. Where it does not hold the last slot,
/// the account of the last slot is moved into its place, so that the slots
/// below the count stay without a gap. An account that holds no slot is left
/// alone.
///
/// A slot at or beyond the count, and a last slot without a cell, are
/// reported as `IndexInconsistency`. Whatever is refused leaves the store as
/// it was.
pub fn remove_user_from_index(store: &mut Store, user: &str) -> (r: Result<(), ContractError>)
    ensures
        match old(store)@.remove_from_index(user@) {
            Ok(next) => r is Ok && final(store)@ == next,
            Err(kind) => r matches Err(e) && e@ == kind && final(store)@ == old(store)@,
        },
{
    match plan_index_removal(store, user) {
        Ok(plan) => apply_index_removal(store, user, plan),
        Err(e) => Err(e),
    }
}

/// Checks, for one account and the slot it is expected in, that the reverse
/// index leads from the account to the slot and the forward index from the
/// slot to the account. It looks at these two cells only; the full scan is
/// `query_validate_index`.
///
/// The error says in words what was found instead. Where a cell does not
/// parse, it carries the store's own message.
pub fn check_index_consistency_minimal(store: &Store, user: &str, expected_index: u32) -> (r:
    Result<(), String>)
    ensures
        match store@.link_check(user@, expected_index) {
            LinkCheck::Sound => r is Ok,
            LinkCheck::Fault(text) => r matches Err(msg) && msg@ == text,
            LinkCheck::Unreadable => r is Err,
        },
{
    match store.user_index_reverse_may_load(user) {
        Err(e) => {
            let mut msg = String::from_str("Failed to load reverse index: ");
            msg.append(e.to_string().as_str());
            return Err(msg);
        },
        Ok(None) => {
            let mut msg = String::from_str("User ");
            msg.append(user);
            msg.append(" missing in reverse index");
            return Err(msg);
        },
        Ok(Some(reverse_idx)) => {
            if reverse_idx != expected_index {
                let mut msg = String::from_str("Index mismatch: forward index has ");
                msg.append(decimal_string(expected_index as u128).as_str());
                msg.append(", reverse index has ");
                msg.append(decimal_string(reverse_idx as u128).as_str());
                return Err(msg);
            }
        },
    }
    match store.user_index_may_load(expected_index) {
        Err(e) => {
            let mut msg = String::from_str("Failed to load forward index: ");
            msg.append(e.to_string().as_str());
            Err(msg)
        },
        Ok(None) => {
            let mut msg = String::from_str("User ");
            msg.append(user);
            msg.append(" missing in forward index at ");
            msg.append(decimal_string(expected_index as u128).as_str());
            Err(msg)
        },
        Ok(Some(user_at_index)) => {
            if !(user_at_index == String::from_str(user)) {
                let mut msg = String::from_str("User mismatch at index ");
                msg.append(decimal_string(expected_index as u128).as_str());
                msg.append(": expected ");
                msg.append(user);
                msg.append(", found ");
                msg.append(user_at_index.as_str());
                return Err(msg);
            }
            Ok(())
        },
    }
}

} // verus!
