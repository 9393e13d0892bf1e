use cosmwasm_std::StdError;
use ustc_preregister::error::ContractError;
use ustc_preregister::text::decimal_string;

#[test]
fn numbers_are_written_in_decimal() {
    assert_eq!(decimal_string(0), "0");
    assert_eq!(decimal_string(7), "7");
    assert_eq!(decimal_string(9), "9");
    assert_eq!(decimal_string(10), "10");
    assert_eq!(decimal_string(1234567890), "1234567890");
    assert_eq!(decimal_string(100000), "100000");
    assert_eq!(decimal_string(u64::MAX as u128), "18446744073709551615");
    assert_eq!(decimal_string(u128::MAX), "340282366920938463463374607431768211455");
    for n in [1u128, 19, 99, 101, 909, 4294967295, 4294967296] {
        assert_eq!(decimal_string(n), n.to_string());
    }
}

#[test]
fn every_refusal_has_its_words() {
    assert_eq!(
        ContractError::Unauthorized {}.to_string(),
        "Unauthorized: Only owner can call this function"
    );
    assert_eq!(
        ContractError::InvalidAmount {}.to_string(),
        "Invalid amount: Amount must be greater than zero"
    );
    assert_eq!(
        ContractError::InsufficientBalance {}.to_string(),
        "Insufficient balance: User does not have enough balance"
    );
    assert_eq!(
        ContractError::InvalidDenom { expected: "uusd".to_string(), got: "uluna".to_string() }
            .to_string(),
        "Invalid denomination: Expected uusd, got uluna"
    );
    assert_eq!(ContractError::UserNotFound {}.to_string(), "User not found");
    assert_eq!(ContractError::NoBalanceToWithdraw {}.to_string(), "No balance to withdraw");
    assert_eq!(
        ContractError::IndexInconsistency {}.to_string(),
        "Index inconsistency: Expected user at index not found"
    );
    assert_eq!(
        ContractError::StartAfterUserNotFound {}.to_string(),
        "User not found in index for pagination"
    );
    assert_eq!(
        ContractError::IndexConversionFailed {}.to_string(),
        "Index conversion failed: Index out of valid range"
    );
    assert_eq!(
        ContractError::WithdrawalDestinationNotSet {}.to_string(),
        "Withdrawal destination not set"
    );
    assert_eq!(
        ContractError::WithdrawalTimestampNotSet {}.to_string(),
        "Withdrawal unlock timestamp not set"
    );
    assert_eq!(
        ContractError::WithdrawalNotUnlocked {}.to_string(),
        "Withdrawal not unlocked: Unlock timestamp has not passed"
    );
    assert_eq!(
        ContractError::InvalidTimestamp {}.to_string(),
        "Invalid timestamp: Unlock timestamp must be at least 7 days in the future"
    );
}

#[test]
fn an_error_of_the_store_speaks_for_itself() {
    let e = ContractError::Std(StdError::generic_err("Multiple denominations not allowed"));
    assert_eq!(e.to_string(), "Generic error: Multiple denominations not allowed");
}
