//! The failures that the ledger reports.

use vstd::prelude::*;
use vstd::string::{to_string_from_display_ensures, StringExecFns};

verus! {

/// The error type of `cosmwasm_std`, carried through unopened.
#[verifier::external_type_specification]
#[verifier::external_body]
pub struct ExStdError(cosmwasm_std::StdError);

/// The error that `StdError::generic_err` makes of a message.
pub uninterp spec fn generic_error(msg: Seq<char>) -> cosmwasm_std::StdError;

/// `StdError::generic_err`: an error that carries the message and nothing
/// else.
#[verifier::external_body]
pub(crate) fn generic_err(msg: &str) -> (e: cosmwasm_std::StdError)
    ensures
        e == generic_error(msg@),
{
    cosmwasm_std::StdError::generic_err(msg)
}

/// Why an operation was refused.
#[derive(Debug)]
pub enum ContractError {
    /// A cell of the store could not be read, a sum or a difference left the
    /// range of 128 bits, the funds held more than one coin, or the host could
    /// not tell what the pool holds.
    Std(cosmwasm_std::StdError),
    /// The caller is not the owner.
    Unauthorized {},
    /// An amount of zero, or no funds at all.
    InvalidAmount {},
    /// The account holds less than it asked for.
    InsufficientBalance {},
    /// The funds are of another denomination.
    InvalidDenom { expected: String, got: String },
    /// The account is not known. No operation reports this at present.
    UserNotFound {},
    /// The pool holds nothing to sweep.
    NoBalanceToWithdraw {},
    /// The index contradicts itself: a slot beyond the count, or a hole
    /// where the last account should be.
    IndexInconsistency {},
    /// The cursor names an account that holds no slot.
    StartAfterUserNotFound {},
    /// A slot number would leave the range of 32 bits.
    IndexConversionFailed {},
    /// No destination was announced.
    WithdrawalDestinationNotSet {},
    /// No unlock time was announced.
    WithdrawalTimestampNotSet {},
    /// The unlock time has not come.
    WithdrawalNotUnlocked {},
    /// The unlock time lies less than seven days ahead.
    InvalidTimestamp {},
}

/// A `ContractError` with its strings as sequences and the payload of `Std`
/// left out.
pub enum ErrorKind {
    Std,
    Unauthorized,
    InvalidAmount,
    InsufficientBalance,
    InvalidDenom { expected: Seq<char>, got: Seq<char> },
    UserNotFound,
    NoBalanceToWithdraw,
    IndexInconsistency,
    StartAfterUserNotFound,
    IndexConversionFailed,
    WithdrawalDestinationNotSet,
    WithdrawalTimestampNotSet,
    WithdrawalNotUnlocked,
    InvalidTimestamp,
}

impl ErrorKind {
    /// The refusal in words. For `Std` the words are those of the error it
    /// carries, which this kind has left out.
    pub open spec fn text(self) -> Seq<char> {
        match self {
            ErrorKind::Std => seq![],
            ErrorKind::Unauthorized => "Unauthorized: Only owner can call this function"@,
            ErrorKind::InvalidAmount => "Invalid amount: Amount must be greater than zero"@,
            ErrorKind::InsufficientBalance =>
                "Insufficient balance: User does not have enough balance"@,
            ErrorKind::InvalidDenom { expected, got } => "Invalid denomination: Expected "@
                + expected + ", got "@ + got,
            ErrorKind::UserNotFound => "User not found"@,
            ErrorKind::NoBalanceToWithdraw => "No balance to withdraw"@,
            ErrorKind::IndexInconsistency =>
                "Index inconsistency: Expected user at index not found"@,
            ErrorKind::StartAfterUserNotFound => "User not found in index for pagination"@,
            ErrorKind::IndexConversionFailed =>
                "Index conversion failed: Index out of valid range"@,
            ErrorKind::WithdrawalDestinationNotSet => "Withdrawal destination not set"@,
            ErrorKind::WithdrawalTimestampNotSet => "Withdrawal unlock timestamp not set"@,
            ErrorKind::WithdrawalNotUnlocked =>
                "Withdrawal not unlocked: Unlock timestamp has not passed"@,
            ErrorKind::InvalidTimestamp =>
                "Invalid timestamp: Unlock timestamp must be at least 7 days in the future"@,
        }
    }
}

impl ContractError {
    /// Says in words why the operation was refused. For `Std` these are the
    /// words of the error that it carries.
    pub fn to_string(&self) -> (r: String)
        ensures
            match *self {
                ContractError::Std(e) => to_string_from_display_ensures::<cosmwasm_std::StdError>(
                    &e,
                    r,
                ),
                _ => r@ == self@.text(),
            },
    {
        match self {
            ContractError::Std(e) => e.to_string(),
            ContractError::Unauthorized {  } => String::from_str(
                "Unauthorized: Only owner can call this function",
            ),
            ContractError::InvalidAmount {  } => String::from_str(
                "Invalid amount: Amount must be greater than zero",
            ),
            ContractError::InsufficientBalance {  } => String::from_str(
                "Insufficient balance: User does not have enough balance",
            ),
            ContractError::InvalidDenom { expected, got } => {
                let mut text = String::from_str("Invalid denomination: Expected ");
                text.append(expected.as_str());
                text.append(", got ");
                text.append(got.as_str());
                text
            },
            ContractError::UserNotFound {  } => String::from_str("User not found"),
            ContractError::NoBalanceToWithdraw {  } => String::from_str("No balance to withdraw"),
            ContractError::IndexInconsistency {  } => String::from_str(
                "Index inconsistency: Expected user at index not found",
            ),
            ContractError::StartAfterUserNotFound {  } => String::from_str(
                "User not found in index for pagination",
            ),
            ContractError::IndexConversionFailed {  } => String::from_str(
                "Index conversion failed: Index out of valid range",
            ),
            ContractError::WithdrawalDestinationNotSet {  } => String::from_str(
                "Withdrawal destination not set",
            ),
            ContractError::WithdrawalTimestampNotSet {  } => String::from_str(
                "Withdrawal unlock timestamp not set",
            ),
            ContractError::WithdrawalNotUnlocked {  } => String::from_str(
                "Withdrawal not unlocked: Unlock timestamp has not passed",
            ),
            ContractError::InvalidTimestamp {  } => String::from_str(
                "Invalid timestamp: Unlock timestamp must be at least 7 days in the future",
            ),
        }
    }
}

impl View for ContractError {
    type V = ErrorKind;

    open spec fn view(&self) -> ErrorKind {
        match *self {
            ContractError::Std(_) => ErrorKind::Std,
            ContractError::Unauthorized {  } => ErrorKind::Unauthorized,
            ContractError::InvalidAmount {  } => ErrorKind::InvalidAmount,
            ContractError::InsufficientBalance {  } => ErrorKind::InsufficientBalance,
            ContractError::InvalidDenom { expected, got } => ErrorKind::InvalidDenom {
                expected: expected@,
                got: got@,
            },
            ContractError::UserNotFound {  } => ErrorKind::UserNotFound,
            ContractError::NoBalanceToWithdraw {  } => ErrorKind::NoBalanceToWithdraw,
            ContractError::IndexInconsistency {  } => ErrorKind::IndexInconsistency,
            ContractError::StartAfterUserNotFound {  } => ErrorKind::StartAfterUserNotFound,
            ContractError::IndexConversionFailed {  } => ErrorKind::IndexConversionFailed,
            ContractError::WithdrawalDestinationNotSet {  } => ErrorKind::WithdrawalDestinationNotSet,
            ContractError::WithdrawalTimestampNotSet {  } => ErrorKind::WithdrawalTimestampNotSet,
            ContractError::WithdrawalNotUnlocked {  } => ErrorKind::WithdrawalNotUnlocked,
            ContractError::InvalidTimestamp {  } => ErrorKind::InvalidTimestamp,
        }
    }
}

} // verus!
