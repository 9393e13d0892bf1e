//! The operations of the ledger: deposits and withdrawals, the timelocked
//! sweep, and the queries.

use vstd::prelude::*;
use vstd::string::StringExecFns;
use cosmwasm_std::StdError;
use crate::audit::{
    count_mismatch_text, gap_text, no_balance_text, no_reverse_text, reverse_mismatch_text,
    zero_balance_text,
};
use crate::error::{generic_err, generic_error, ContractError, ErrorKind};
use crate::helpers::{
    accepted_amount, apply_index_removal, plan_index_removal, validate_denom, verify_owner,
    IndexRemoval,
};
use crate::ledger::{DEFAULT_QUERY_LIMIT, MAX_QUERY_LIMIT, MIN_WITHDRAWAL_DELAY};
use crate::msg::{
    Attribute, BankMsg, BankMsgView, Coin, CoinView, Env, ExecuteMsg, GetAllUsersResponse,
    GetConfigResponse, GetTotalDepositsResponse, GetUserCountResponse, GetUserDepositResponse,
    GetWithdrawalInfoResponse, InstantiateMsg, MessageInfo, MessageInfoView, QueryMsg,
    QueryResponse, Response, ResponseView, ValidateIndexResponse, WithdrawalInfoView,
};
use crate::state::{uint128_checked_add, uint128_checked_sub, Config, ConfigView, State, Store};
use crate::text::{decimal, decimal_string};

verus! {

fn attribute(key: &str, value: &str) -> (a: Attribute)
    ensures
        a@ == (key@, value@),
{
    Attribute { key: String::from_str(key), value: String::from_str(value) }
}

fn record(attributes: &mut Vec<Attribute>, key: &str, value: &str)
    ensures
        final(attributes).deep_view() == old(attributes).deep_view().push((key@, value@)),
{
    attributes.push(attribute(key, value));
    assert(attributes.deep_view() =~= old(attributes).deep_view().push((key@, value@)));
}

/// The denomination that the ledger accepts.
pub const USTC_DENOM: &'static str = "uusd";

/// What the set-up hands back: no transfer, and the record of the owner and
/// the denomination.
pub open spec fn instantiate_response(owner: Seq<char>) -> ResponseView {
    ResponseView {
        messages: seq![],
        attributes: seq![
            ("action"@, "instantiate"@),
            ("owner"@, owner),
            ("ustc_denom"@, USTC_DENOM@),
        ],
    }
}

/// Sets the ledger up: no deposits, no accounts, no sweep announced. It
/// hands back the configuration, with the owner that the message names and
/// the denomination "uusd", for the caller to keep.
///
/// The cells of accounts and slots are not touched: the store is expected
/// to be fresh, and a fresh store is in order once it is set up.
pub fn instantiate(store: &mut Store, _env: Env, _info: MessageInfo, msg: InstantiateMsg) -> (r:
    Result<(Config, Response), ContractError>)
    ensures
        r matches Ok((config, response)) && config@ == (ConfigView {
            owner: msg.owner@,
            ustc_denom: USTC_DENOM@,
        }) && response@ == instantiate_response(msg.owner@),
        final(store)@ == (State {
            total_deposits: Some(0u128),
            user_count: Some(0u32),
            withdrawal_destination: Some(None::<Seq<char>>),
            withdrawal_unlock_timestamp: Some(0u64),
            ..old(store)@
        }),
        old(store)@.vacant() ==> final(store)@.consistent(),
{
    let config = Config { owner: msg.owner, ustc_denom: String::from_str(USTC_DENOM) };
    if let Err(e) = store.total_deposits_save(0) {
        return Err(ContractError::Std(e));
    }
    if let Err(e) = store.user_count_save(0) {
        return Err(ContractError::Std(e));
    }
    if let Err(e) = store.withdrawal_destination_save(None) {
        return Err(ContractError::Std(e));
    }
    if let Err(e) = store.withdrawal_unlock_timestamp_save(0) {
        return Err(ContractError::Std(e));
    }
    let mut attributes: Vec<Attribute> = Vec::new();
    record(&mut attributes, "action", "instantiate");
    record(&mut attributes, "owner", config.owner.as_str());
    record(&mut attributes, "ustc_denom", config.ustc_denom.as_str());
    let response = Response { messages: Vec::new(), attributes };
    assert(response@.messages =~= seq![]);
    assert(response@.attributes =~= instantiate_response(msg.owner@).attributes);
    proof {
        if old(store)@.vacant() {
            store@.lemma_fresh_consistent();
        }
    }
    Ok((config, response))
}

/// What a deposit hands back: no transfer, and the record of who paid in
/// how much, with a second event where the account is new to the index.
pub open spec fn deposit_response(user: Seq<char>, amount: u128, is_new_user: bool)
    -> ResponseView {
    ResponseView {
        messages: seq![],
        attributes: seq![
            ("action"@, "deposit"@),
            ("user"@, user),
            ("amount"@, decimal(amount as nat)),
            ("event"@, "deposit"@),
        ] + if is_new_user {
            seq![("event"@, "user_added"@)]
        } else {
            seq![]
        },
    }
}

/// What is owed for a deposit: the funds are checked first, then the
/// deposit is made as `State::deposit` says. Whatever is refused leaves the
/// store as it was.
pub open spec fn deposited(
    before: State,
    config: ConfigView,
    info: MessageInfoView,
    after: State,
    r: Result<Response, ContractError>,
) -> bool {
    match accepted_amount(info.funds, config.ustc_denom) {
        Err(kind) => r matches Err(e) && e@ == kind && after == before,
        Ok(amount) => match before.deposit(info.sender, amount) {
            Err(kind) => r matches Err(e) && e@ == kind && after == before,
            Ok(next) => r matches Ok(response) && after == next && response@ == deposit_response(
                info.sender,
                amount,
                before.balance(info.sender) == Some(0u128),
            ),
        },
    }
}

/// Credits the funds of the call to the caller. The funds must be one coin
/// of the configured denomination, more than nothing. A caller that held
/// nothing takes the next free slot of the index.
pub fn execute_deposit(store: &mut Store, config: &Config, info: MessageInfo) -> (r: Result<
    Response,
    ContractError,
>)
    ensures
        deposited(old(store)@, config@, info@, final(store)@, r),
        old(store)@.consistent() ==> final(store)@.consistent(),
{
    let amount: u128 = match validate_denom(info.funds.as_slice(), config.ustc_denom.as_str()) {
        Ok(amount) => amount,
        Err(e) => return Err(e),
    };
    let user = info.sender.as_str();
    let current_deposit: u128 = match store.users_may_load(user) {
        Ok(Some(held)) => held,
        Ok(None) => 0,
        Err(e) => return Err(ContractError::Std(e)),
    };
    let is_new_user = current_deposit == 0;
    let new_deposit: u128 = match uint128_checked_add(current_deposit, amount) {
        Ok(sum) => sum,
        Err(e) => return Err(ContractError::Std(e)),
    };
    let total_deposits: u128 = match store.total_deposits_load() {
        Ok(total) => total,
        Err(e) => return Err(ContractError::Std(e)),
    };
    let new_total: u128 = match uint128_checked_add(total_deposits, amount) {
        Ok(sum) => sum,
        Err(e) => return Err(ContractError::Std(e)),
    };
    let new_index: Option<u32> = if is_new_user {
        match store.user_count_load() {
            Ok(count) => {
                if count == u32::MAX {
                    return Err(ContractError::IndexConversionFailed {  });
                }
                Some(count)
            },
            Err(e) => return Err(ContractError::Std(e)),
        }
    } else {
        None
    };
    if let Err(e) = store.users_save(user, new_deposit) {
        return Err(ContractError::Std(e));
    }
    if let Err(e) = store.total_deposits_save(new_total) {
        return Err(ContractError::Std(e));
    }
    if let Some(slot) = new_index {
        if let Err(e) = store.user_index_save(slot, user) {
            return Err(ContractError::Std(e));
        }
        if let Err(e) = store.user_index_reverse_save(user, slot) {
            return Err(ContractError::Std(e));
        }
        if let Err(e) = store.user_count_save(slot + 1) {
            return Err(ContractError::Std(e));
        }
    }
    let mut attributes: Vec<Attribute> = Vec::new();
    record(&mut attributes, "action", "deposit");
    record(&mut attributes, "user", user);
    record(&mut attributes, "amount", decimal_string(amount).as_str());
    record(&mut attributes, "event", "deposit");
    if is_new_user {
        record(&mut attributes, "event", "user_added");
    }
    let response = Response { messages: Vec::new(), attributes };
    assert(response@.messages =~= seq![]);
    assert(response@.attributes =~= deposit_response(info.sender@, amount, is_new_user).attributes);
    proof {
        if old(store)@.consistent() {
            old(store)@.lemma_deposit_consistent(info.sender@, amount);
        }
    }
    Ok(response)
}

/// What a withdrawal hands back: the transfer of the amount to the caller,
/// and the record of it.
pub open spec fn withdraw_response(user: Seq<char>, denom: Seq<char>, amount: u128)
    -> ResponseView {
    ResponseView {
        messages: seq![
            BankMsgView::Send { to_address: user, amount: seq![CoinView { denom, amount }] },
        ],
        attributes: seq![
            ("action"@, "withdraw"@),
            ("user"@, user),
            ("amount"@, decimal(amount as nat)),
            ("event"@, "withdraw"@),
        ],
    }
}

/// What is owed for a withdrawal: it is made as `State::withdraw` says, and
/// whatever is refused leaves the store as it was.
pub open spec fn withdrawn(
    before: State,
    config: ConfigView,
    info: MessageInfoView,
    amount: u128,
    after: State,
    r: Result<Response, ContractError>,
) -> bool {
    match before.withdraw(info.sender, amount) {
        Err(kind) => r matches Err(e) && e@ == kind && after == before,
        Ok(next) => r matches Ok(response) && after == next && response@ == withdraw_response(
            info.sender,
            config.ustc_denom,
            amount,
        ),
    }
}

/// Pays an amount out of the caller's balance: the amount leaves the
/// balance and the total, and the host is asked to send it to the caller.
/// A caller that is left with nothing loses its slot in the index.
pub fn execute_withdraw(store: &mut Store, config: &Config, info: MessageInfo, amount: u128) -> (r:
    Result<Response, ContractError>)
    ensures
        withdrawn(old(store)@, config@, info@, amount, final(store)@, r),
        old(store)@.consistent() ==> final(store)@.consistent(),
{
    if amount == 0 {
        return Err(ContractError::InvalidAmount {  });
    }
    let user = info.sender.as_str();
    let current_deposit: u128 = match store.users_may_load(user) {
        Ok(Some(held)) => held,
        Ok(None) => 0,
        Err(e) => return Err(ContractError::Std(e)),
    };
    if current_deposit < amount {
        return Err(ContractError::InsufficientBalance {  });
    }
    let new_deposit: u128 = current_deposit - amount;
    let plan = if new_deposit == 0 {
        match plan_index_removal(store, user) {
            Ok(plan) => plan,
            Err(e) => return Err(e),
        }
    } else {
        IndexRemoval::Absent
    };
    let total_deposits: u128 = match store.total_deposits_load() {
        Ok(total) => total,
        Err(e) => return Err(ContractError::Std(e)),
    };
    let new_total: u128 = match uint128_checked_sub(total_deposits, amount) {
        Ok(difference) => difference,
        Err(e) => return Err(ContractError::Std(e)),
    };
    if new_deposit == 0 {
        store.users_remove(user);
        if let Err(e) = apply_index_removal(store, user, plan) {
            return Err(e);
        }
    } else {
        if let Err(e) = store.users_save(user, new_deposit) {
            return Err(ContractError::Std(e));
        }
    }
    if let Err(e) = store.total_deposits_save(new_total) {
        return Err(ContractError::Std(e));
    }
    let mut coins: Vec<Coin> = Vec::new();
    coins.push(Coin { denom: config.ustc_denom.clone(), amount });
    let mut messages: Vec<BankMsg> = Vec::new();
    messages.push(BankMsg::Send { to_address: info.sender.clone(), amount: coins });
    let mut attributes: Vec<Attribute> = Vec::new();
    record(&mut attributes, "action", "withdraw");
    record(&mut attributes, "user", user);
    record(&mut attributes, "amount", decimal_string(amount).as_str());
    record(&mut attributes, "event", "withdraw");
    let response = Response { messages, attributes };
    proof {
        let expected = withdraw_response(info.sender@, config.ustc_denom@, amount);
        assert(coins.deep_view() =~= seq![CoinView { denom: config.ustc_denom@, amount }]);
        assert(response@.messages =~= expected.messages);
        assert(response@.attributes =~= expected.attributes);
        if old(store)@.consistent() {
            old(store)@.lemma_withdraw_consistent(info.sender@, amount);
        }
    }
    Ok(response)
}

/// What a sweep hands back: the transfer of the whole pool to the
/// destination, and the record of it.
pub open spec fn owner_withdraw_response(destination: Seq<char>, pool: CoinView) -> ResponseView {
    ResponseView {
        messages: seq![BankMsgView::Send { to_address: destination, amount: seq![pool] }],
        attributes: seq![
            ("action"@, "owner_withdraw"@),
            ("destination"@, destination),
            ("amount"@, decimal(pool.amount as nat)),
            ("event"@, "owner_withdraw"@),
        ],
    }
}

/// What the host said of the pool: the coin, or nothing where it failed.
pub open spec fn pool_view(balance: Result<Coin, StdError>) -> Option<CoinView> {
    match balance {
        Ok(coin) => Some(coin@),
        Err(_) => None,
    }
}

/// What is owed for a sweep: only the owner may ask, and the sweep is
/// granted as `State::authorize_sweep` says.
pub open spec fn swept(
    state: State,
    config: ConfigView,
    now: u64,
    info: MessageInfoView,
    pool: Option<CoinView>,
    r: Result<Response, ContractError>,
) -> bool {
    if info.sender != config.owner {
        r matches Err(e) && e@ == ErrorKind::Unauthorized
    } else {
        match state.authorize_sweep(now, pool) {
            Err(kind) => r matches Err(e) && e@ == kind,
            Ok((destination, coin)) => r matches Ok(response) && response@
                == owner_withdraw_response(destination, coin),
        }
    }
}

/// Sweeps the pool: asks the host to send everything that the ledger's
/// account holds to the announced destination. Only the owner may do so, and
/// only once the announced unlock time has come. `balance` is what the host
/// answered when asked for the account's balance in the configured
/// denomination.
///
/// The balances of the depositors are not touched: the sweep takes what is
/// in custody, which may be more than was deposited.
pub fn execute_owner_withdraw(
    store: &Store,
    config: &Config,
    env: Env,
    info: MessageInfo,
    balance: Result<Coin, StdError>,
) -> (r: Result<Response, ContractError>)
    ensures
        swept(store@, config@, env.block_time, info@, pool_view(balance), r),
{
    if let Err(e) = verify_owner(&info, config) {
        return Err(e);
    }
    let destination: String = match store.withdrawal_destination_load() {
        Ok(Some(destination)) => destination,
        Ok(None) => return Err(ContractError::WithdrawalDestinationNotSet {  }),
        Err(e) => return Err(ContractError::Std(e)),
    };
    let unlock_timestamp: u64 = match store.withdrawal_unlock_timestamp_load() {
        Ok(unlock) => unlock,
        Err(e) => return Err(ContractError::Std(e)),
    };
    if unlock_timestamp == 0 {
        return Err(ContractError::WithdrawalTimestampNotSet {  });
    }
    if env.block_time < unlock_timestamp {
        return Err(ContractError::WithdrawalNotUnlocked {  });
    }
    let pool: Coin = match balance {
        Ok(coin) => coin,
        Err(e) => return Err(ContractError::Std(e)),
    };
    if pool.amount == 0 {
        return Err(ContractError::NoBalanceToWithdraw {  });
    }
    let mut attributes: Vec<Attribute> = Vec::new();
    record(&mut attributes, "action", "owner_withdraw");
    record(&mut attributes, "destination", destination.as_str());
    record(&mut attributes, "amount", decimal_string(pool.amount).as_str());
    record(&mut attributes, "event", "owner_withdraw");
    let ghost sent = pool@;
    let mut coins: Vec<Coin> = Vec::new();
    coins.push(pool);
    let mut messages: Vec<BankMsg> = Vec::new();
    messages.push(BankMsg::Send { to_address: destination, amount: coins });
    let response = Response { messages, attributes };
    proof {
        let expected = owner_withdraw_response(destination@, sent);
        assert(coins.deep_view() =~= seq![sent]);
        assert(response@.messages =~= expected.messages);
        assert(response@.attributes =~= expected.attributes);
    }
    Ok(response)
}

/// What an announcement hands back: no transfer, and the record of the
/// destination and the unlock time.
pub open spec fn set_withdrawal_destination_response(destination: Seq<char>, unlock: u64)
    -> ResponseView {
    ResponseView {
        messages: seq![],
        attributes: seq![
            ("action"@, "set_withdrawal_destination"@),
            ("destination"@, destination),
            ("unlock_timestamp"@, decimal(unlock as nat)),
        ],
    }
}

/// What is owed for an announcement: only the owner may make one, and it
/// takes effect as `State::configure_timelock` says. Whatever is refused
/// leaves the store as it was.
pub open spec fn announced(
    before: State,
    config: ConfigView,
    now: u64,
    info: MessageInfoView,
    destination: Seq<char>,
    unlock: u64,
    after: State,
    r: Result<Response, ContractError>,
) -> bool {
    if info.sender != config.owner {
        r matches Err(e) && e@ == ErrorKind::Unauthorized && after == before
    } else {
        match before.configure_timelock(destination, unlock, now) {
            Err(kind) => r matches Err(e) && e@ == kind && after == before,
            Ok(next) => r matches Ok(response) && after == next && response@
                == set_withdrawal_destination_response(destination, unlock),
        }
    }
}

/// Announces a sweep: where the pool will go, and from when on. Only the
/// owner may do so, and the time must lie at least seven days ahead. An
/// earlier announcement is replaced whole.
pub fn execute_set_withdrawal_destination(
    store: &mut Store,
    config: &Config,
    env: Env,
    info: MessageInfo,
    destination: String,
    unlock_timestamp: u64,
) -> (r: Result<Response, ContractError>)
    ensures
        announced(
            old(store)@,
            config@,
            env.block_time,
            info@,
            destination@,
            unlock_timestamp,
            final(store)@,
            r,
        ),
        old(store)@.consistent() ==> final(store)@.consistent(),
{
    if let Err(e) = verify_owner(&info, config) {
        return Err(e);
    }
    match env.block_time.checked_add(MIN_WITHDRAWAL_DELAY) {
        Some(min_timestamp) => {
            if unlock_timestamp < min_timestamp {
                return Err(ContractError::InvalidTimestamp {  });
            }
        },
        None => return Err(ContractError::InvalidTimestamp {  }),
    }
    if let Err(e) = store.withdrawal_destination_save(Some(destination.as_str())) {
        return Err(ContractError::Std(e));
    }
    if let Err(e) = store.withdrawal_unlock_timestamp_save(unlock_timestamp) {
        return Err(ContractError::Std(e));
    }
    let mut attributes: Vec<Attribute> = Vec::new();
    record(&mut attributes, "action", "set_withdrawal_destination");
    record(&mut attributes, "destination", destination.as_str());
    record(&mut attributes, "unlock_timestamp", decimal_string(unlock_timestamp as u128).as_str());
    let response = Response { messages: Vec::new(), attributes };
    assert(response@.messages =~= seq![]);
    assert(response@.attributes =~= set_withdrawal_destination_response(
        destination@,
        unlock_timestamp,
    ).attributes);
    proof {
        old(store)@.lemma_timelock(destination@, unlock_timestamp, env.block_time);
    }
    Ok(response)
}

/// What a change of the configuration hands back: no transfer, and the
/// record of who owns the ledger now.
pub open spec fn update_config_response(owner: Seq<char>) -> ResponseView {
    ResponseView {
        messages: seq![],
        attributes: seq![
            ("action"@, "update_config"@),
            ("owner"@, owner),
            ("event"@, "config_updated"@),
        ],
    }
}

/// What is owed for a change of the configuration: only the owner may make
/// one; a new owner, where one is named, replaces the old.
pub open spec fn reconfigured(
    before: ConfigView,
    info: MessageInfoView,
    owner: Option<Seq<char>>,
    after: ConfigView,
    r: Result<Response, ContractError>,
) -> bool {
    if info.sender != before.owner {
        r matches Err(e) && e@ == ErrorKind::Unauthorized && after == before
    } else {
        let next = match owner {
            Some(new_owner) => ConfigView { owner: new_owner, ..before },
            None => before,
        };
        r matches Ok(response) && after == next && response@ == update_config_response(next.owner)
    }
}

/// Hands the ledger to a new owner, where one is named. Only the owner may
/// do so.
pub fn execute_update_config(config: &mut Config, info: MessageInfo, owner: Option<String>) -> (r:
    Result<Response, ContractError>)
    ensures
        reconfigured(old(config)@, info@, owner.deep_view(), final(config)@, r),
{
    if let Err(e) = verify_owner(&info, config) {
        return Err(e);
    }
    if let Some(new_owner) = owner {
        config.owner = new_owner;
    }
    let mut attributes: Vec<Attribute> = Vec::new();
    record(&mut attributes, "action", "update_config");
    record(&mut attributes, "owner", config.owner.as_str());
    record(&mut attributes, "event", "config_updated");
    let response = Response { messages: Vec::new(), attributes };
    assert(response@.messages =~= seq![]);
    assert(response@.attributes =~= update_config_response(config.owner@).attributes);
    Ok(response)
}

/// What is owed for a message: what is owed for the operation that it
/// names. An operation that does not concern the store leaves it as it was,
/// and so for the configuration.
pub open spec fn executed(
    before: State,
    config_before: ConfigView,
    now: u64,
    info: MessageInfoView,
    msg: ExecuteMsg,
    pool: Option<CoinView>,
    after: State,
    config_after: ConfigView,
    r: Result<Response, ContractError>,
) -> bool {
    match msg {
        ExecuteMsg::Deposit {  } => config_after == config_before && deposited(
            before,
            config_before,
            info,
            after,
            r,
        ),
        ExecuteMsg::Withdraw { amount } => config_after == config_before && withdrawn(
            before,
            config_before,
            info,
            amount,
            after,
            r,
        ),
        ExecuteMsg::OwnerWithdraw {  } => config_after == config_before && after == before
            && swept(before, config_before, now, info, pool, r),
        ExecuteMsg::UpdateConfig { owner } => after == before && reconfigured(
            config_before,
            info,
            owner.deep_view(),
            config_after,
            r,
        ),
        ExecuteMsg::SetWithdrawalDestination { destination, unlock_timestamp } => config_after
            == config_before && announced(
            before,
            config_before,
            now,
            info,
            destination@,
            unlock_timestamp,
            after,
            r,
        ),
    }
}

/// Carries out the operation that a message names. `balance` is what the
/// host answered when asked for the ledger's own balance; only a sweep
/// looks at it.
pub fn execute(
    store: &mut Store,
    config: &mut Config,
    env: Env,
    info: MessageInfo,
    msg: ExecuteMsg,
    balance: Result<Coin, StdError>,
) -> (r: Result<Response, ContractError>)
    ensures
        executed(
            old(store)@,
            old(config)@,
            env.block_time,
            info@,
            msg,
            pool_view(balance),
            final(store)@,
            final(config)@,
            r,
        ),
        old(store)@.consistent() ==> final(store)@.consistent(),
{
    match msg {
        ExecuteMsg::Deposit {  } => execute_deposit(store, config, info),
        ExecuteMsg::Withdraw { amount } => execute_withdraw(store, config, info, amount),
        ExecuteMsg::OwnerWithdraw {  } => execute_owner_withdraw(store, config, env, info, balance),
        ExecuteMsg::UpdateConfig { owner } => execute_update_config(config, info, owner),
        ExecuteMsg::SetWithdrawalDestination { destination, unlock_timestamp } => {
            execute_set_withdrawal_destination(
                store,
                config,
                env,
                info,
                destination,
                unlock_timestamp,
            )
        },
    }
}

/// What an account holds; nothing, where it has never deposited or has
/// withdrawn everything. It fails only where the account's cell does not
/// parse.
pub fn query_user_deposit(store: &Store, user: String) -> (r: Result<
    GetUserDepositResponse,
    StdError,
>)
    ensures
        match store@.balance(user@) {
            Some(held) => r matches Ok(found) && found@ == (user@, held),
            None => r is Err,
        },
{
    let deposit: u128 = match store.users_may_load(user.as_str()) {
        Ok(Some(held)) => held,
        Ok(None) => 0,
        Err(e) => return Err(e),
    };
    Ok(GetUserDepositResponse { user, deposit })
}

/// How many accounts hold a balance, by the stored count. It fails only
/// where the count is missing or does not parse.
pub fn query_user_count(store: &Store) -> (r: Result<GetUserCountResponse, StdError>)
    ensures
        match store@.user_count {
            Some(count) => r == Ok::<GetUserCountResponse, StdError>(
                GetUserCountResponse { count },
            ),
            None => r is Err,
        },
{
    match store.user_count_load() {
        Ok(count) => Ok(GetUserCountResponse { count }),
        Err(e) => Err(e),
    }
}

/// The sum of all balances, by the stored total. It fails only where the
/// total is missing or does not parse.
pub fn query_total_deposits(store: &Store) -> (r: Result<GetTotalDepositsResponse, StdError>)
    ensures
        match store@.total_deposits {
            Some(total) => r == Ok::<GetTotalDepositsResponse, StdError>(
                GetTotalDepositsResponse { total },
            ),
            None => r is Err,
        },
{
    match store.total_deposits_load() {
        Ok(total) => Ok(GetTotalDepositsResponse { total }),
        Err(e) => Err(e),
    }
}

/// The owner and the denomination.
pub fn query_config(config: &Config) -> (r: Result<GetConfigResponse, StdError>)
    ensures
        r matches Ok(found) && found@ == config@,
{
    Ok(GetConfigResponse { owner: config.owner.clone(), ustc_denom: config.ustc_denom.clone() })
}

/// What has been announced of a sweep, as a query reports it; `None` where
/// the destination or the unlock time is missing or does not parse.
pub open spec fn withdrawal_info(state: State) -> Option<WithdrawalInfoView> {
    match (state.withdrawal_destination, state.withdrawal_unlock_timestamp) {
        (Some(destination), Some(unlock_timestamp)) => Some(
            WithdrawalInfoView {
                destination,
                unlock_timestamp,
                is_configured: destination is Some && unlock_timestamp != 0,
            },
        ),
        _ => None,
    }
}

/// Where a sweep would go and from when on, and whether both have been
/// announced.
pub fn query_withdrawal_info(store: &Store) -> (r: Result<GetWithdrawalInfoResponse, StdError>)
    ensures
        match withdrawal_info(store@) {
            Some(info) => r matches Ok(found) && found@ == info,
            None => r is Err,
        },
{
    let destination: Option<String> = match store.withdrawal_destination_load() {
        Ok(destination) => destination,
        Err(e) => return Err(e),
    };
    let unlock_timestamp: u64 = match store.withdrawal_unlock_timestamp_load() {
        Ok(unlock) => unlock,
        Err(e) => return Err(e),
    };
    let is_configured = destination.is_some() && unlock_timestamp != 0;
    Ok(GetWithdrawalInfoResponse { destination, unlock_timestamp, is_configured })
}

fn user_at_index(user: &str, slot: u32) -> (s: String)
    ensures
        s@ == "User "@ + user@ + " at index "@ + crate::text::decimal(slot as nat),
{
    let mut s = String::from_str("User ");
    s.append(user);
    s.append(" at index ");
    s.append(decimal_string(slot as u128).as_str());
    s
}

fn zero_balance_issue(user: &str, slot: u32) -> (s: String)
    ensures
        s@ == zero_balance_text(user@, slot),
{
    let mut s = user_at_index(user, slot);
    s.append(" has zero balance but is in index");
    s
}

fn no_balance_issue(user: &str, slot: u32) -> (s: String)
    ensures
        s@ == no_balance_text(user@, slot),
{
    let mut s = user_at_index(user, slot);
    s.append(" not found in USERS map");
    s
}

fn no_reverse_issue(user: &str, slot: u32) -> (s: String)
    ensures
        s@ == no_reverse_text(user@, slot),
{
    let mut s = user_at_index(user, slot);
    s.append(" missing in reverse index");
    s
}

fn reverse_mismatch_issue(user: &str, slot: u32, reverse: u32) -> (s: String)
    ensures
        s@ == reverse_mismatch_text(user@, slot, reverse),
{
    let mut s = String::from_str("Reverse index mismatch: user ");
    s.append(user);
    s.append(" has index ");
    s.append(decimal_string(slot as u128).as_str());
    s.append(" in forward, ");
    s.append(decimal_string(reverse as u128).as_str());
    s.append(" in reverse");
    s
}

fn gap_issue(slot: u32) -> (s: String)
    ensures
        s@ == gap_text(slot),
{
    let mut s = String::from_str("Gap detected: index ");
    s.append(decimal_string(slot as u128).as_str());
    s.append(" is missing");
    s
}

fn count_mismatch_issue(stored: u32, found: u32) -> (s: String)
    ensures
        s@ == count_mismatch_text(stored, found),
{
    let mut s = String::from_str("User count mismatch: stored count is ");
    s.append(decimal_string(stored as u128).as_str());
    s.append(", actual users with non-zero balance is ");
    s.append(decimal_string(found as u128).as_str());
    s
}

fn note(issues: &mut Vec<String>, issue: String)
    ensures
        final(issues).deep_view() == old(issues).deep_view().push(issue@),
{
    issues.push(issue);
    assert(issues.deep_view() =~= old(issues).deep_view().push(issue@));
}

/// Scans every slot below the stored count and reports what it finds: a
/// slot without a cell, an account without a positive balance, an account
/// whose way back leads elsewhere or nowhere, and a count that differs from
/// the number of funded accounts met. Nothing is written.
///
/// It fails only where the count or a cell that the scan looks at cannot be
/// read.
pub fn query_validate_index(store: &Store) -> (r: Result<ValidateIndexResponse, StdError>)
    ensures
        match store@.audit() {
            Some(report) => r matches Ok(found) && found@ == report,
            None => r is Err,
        },
{
    let user_count_stored: u32 = match store.user_count_load() {
        Ok(count) => count,
        Err(e) => return Err(e),
    };
    let mut issues: Vec<String> = Vec::new();
    let mut users_found: u32 = 0;
    let mut total_in_index: u32 = 0;
    let mut idx: u32 = 0;
    assert(issues.deep_view() =~= store@.issues_below(0));
    while idx < user_count_stored
        invariant
            idx <= user_count_stored,
            store@.user_count == Some(user_count_stored),
            issues.deep_view() == store@.issues_below(idx as nat),
            users_found == store@.funded_below(idx as nat),
            total_in_index == store@.filled_below(idx as nat),
            forall|slot: u32| slot < idx ==> !store@.slot_unreadable(slot),
        decreases user_count_stored - idx,
    {
        proof {
            store@.lemma_scan_bounds(idx as nat);
        }
        let ghost before = issues.deep_view();
        match store.user_index_may_load(idx) {
            Err(e) => {
                assert(store@.slot_unreadable(idx));
                return Err(e);
            },
            Ok(None) => {
                note(&mut issues, gap_issue(idx));
            },
            Ok(Some(user)) => {
                total_in_index = total_in_index + 1;
                match store.users_may_load(user.as_str()) {
                    Err(e) => {
                        assert(store@.slot_unreadable(idx));
                        return Err(e);
                    },
                    Ok(None) => {
                        note(&mut issues, no_balance_issue(user.as_str(), idx));
                    },
                    Ok(Some(deposit)) => {
                        if deposit != 0 {
                            users_found = users_found + 1;
                        } else {
                            note(&mut issues, zero_balance_issue(user.as_str(), idx));
                        }
                    },
                }
                assert(issues.deep_view() =~= before + store@.balance_issues(user@, idx));
                match store.user_index_reverse_may_load(user.as_str()) {
                    Err(e) => {
                        assert(store@.slot_unreadable(idx));
                        return Err(e);
                    },
                    Ok(None) => {
                        note(&mut issues, no_reverse_issue(user.as_str(), idx));
                    },
                    Ok(Some(reverse_idx)) => {
                        if reverse_idx != idx {
                            note(
                                &mut issues,
                                reverse_mismatch_issue(user.as_str(), idx, reverse_idx),
                            );
                        }
                    },
                }
                assert(issues.deep_view() =~= before + (store@.balance_issues(user@, idx)
                    + store@.reverse_issues(user@, idx)));
            },
        }
        assert(issues.deep_view() =~= before + store@.slot_issues(idx));
        idx = idx + 1;
    }
    proof {
        store@.lemma_scan_bounds(idx as nat);
    }
    let ghost scanned = issues.deep_view();
    if user_count_stored != users_found {
        note(&mut issues, count_mismatch_issue(user_count_stored, users_found));
    } else {
        assert(issues.deep_view() =~= scanned + Seq::<Seq<char>>::empty());
    }
    let is_consistent = issues.len() == 0;
    assert(issues.deep_view().len() == issues.len());
    let report = ValidateIndexResponse {
        is_consistent,
        issues,
        user_count_stored,
        user_count_actual: users_found,
        total_users_in_index: total_in_index,
    };
    assert(store@.audit() is Some);
    assert(store@.audit().unwrap().issues == report@.issues);
    Ok(report)
}

/// Lists one page of the accounts that hold a balance, in slot order, from
/// the first slot or from the one after the cursor's. The page takes at most
/// `limit` accounts, 30 where no limit is given and never more than 100. It
/// carries a cursor where it is full and slots remain behind it.
///
/// A cursor that holds no slot is refused with `StartAfterUserNotFound`; so is
/// one of an account that has withdrawn everything since it was handed out.
pub fn query_all_users(store: &Store, start_after: Option<String>, limit: Option<u32>) -> (r:
    Result<GetAllUsersResponse, ContractError>)
    ensures
        match store@.page(start_after.deep_view(), limit) {
            Ok(page) => r matches Ok(found) && found@ == page,
            Err(kind) => r matches Err(e) && e@ == kind,
        },
{
    let asked: u32 = match limit {
        Some(asked) => asked,
        None => DEFAULT_QUERY_LIMIT,
    };
    let room: usize = if asked > MAX_QUERY_LIMIT {
        MAX_QUERY_LIMIT as usize
    } else {
        asked as usize
    };
    let user_count: u32 = match store.user_count_load() {
        Ok(count) => count,
        Err(e) => return Err(ContractError::Std(e)),
    };
    let start: u64 = match start_after {
        Some(cursor) => match store.user_index_reverse_may_load(cursor.as_str()) {
            Err(e) => return Err(ContractError::Std(e)),
            Ok(None) => return Err(ContractError::StartAfterUserNotFound {  }),
            Ok(Some(slot)) => slot as u64 + 1,
        },
        None => 0,
    };
    let mut users: Vec<(String, u128)> = Vec::new();
    let mut idx: u64 = start;
    assert(users.deep_view() =~= store@.listed(start as nat, idx as nat));
    while idx < user_count as u64 && users.len() < room
        invariant
            room == crate::ledger::page_limit(limit),
            store@.user_count == Some(user_count),
            store@.page_start(start_after.deep_view()) == Ok::<nat, crate::error::ErrorKind>(
                start as nat,
            ),
            start <= idx,
            idx <= user_count || idx == start,
            users.len() <= room,
            users.deep_view() == store@.listed(start as nat, idx as nat),
            forall|slot: u32| start <= slot < idx ==> !store@.slot_unlistable(slot),
            users.len() == room && room > 0 ==> idx > start && store@.listed(
                start as nat,
                (idx - 1) as nat,
            ).len() == room - 1,
        decreases user_count - idx,
    {
        let ghost before = users.deep_view();
        match store.user_index_may_load(idx as u32) {
            Err(e) => {
                assert(store@.slot_unlistable(idx as u32));
                return Err(ContractError::Std(e));
            },
            Ok(None) => {},
            Ok(Some(user)) => {
                match store.users_may_load(user.as_str()) {
                    Err(e) => {
                        assert(store@.slot_unlistable(idx as u32));
                        return Err(ContractError::Std(e));
                    },
                    Ok(None) => {},
                    Ok(Some(deposit)) => {
                        if deposit != 0 {
                            users.push((user, deposit));
                            assert(users.deep_view() =~= before.push((user@, deposit)));
                        }
                    },
                }
            },
        }
        assert(users.deep_view() =~= before + store@.slot_entry(idx as u32));
        idx = idx + 1;
    }
    let next: Option<String> = if users.len() >= room && room > 0 && idx < user_count as u64 {
        Some(users[users.len() - 1].0.clone())
    } else {
        None
    };
    proof {
        let state = store@;
        let all = state.listed(start as nat, user_count as nat);
        assert forall|slot: u32|
            start <= slot < user_count && state.slot_unlistable(slot) implies state.listed(
            start as nat,
            slot as nat,
        ).len() >= room by {
            state.lemma_listed_prefix(start as nat, idx as nat, slot as nat);
        }
        if idx <= user_count {
            state.lemma_listed_prefix(start as nat, idx as nat, user_count as nat);
        } else {
            assert(all =~= users.deep_view());
        }
        if user_count > 0 {
            if idx < user_count {
                state.lemma_listed_prefix(start as nat, idx as nat, (user_count - 1) as nat);
            } else if idx > user_count {
                assert(state.listed(start as nat, (user_count - 1) as nat).len() == 0);
            } else if idx > start {
                if users.len() < room {
                    state.lemma_listed_prefix(
                        start as nat,
                        (user_count - 1) as nat,
                        user_count as nat,
                    );
                }
            }
        }
        assert(all.take(all.len() as int) =~= all);
    }
    Ok(GetAllUsersResponse { users, next })
}

/// What is owed for a query: the answer of the function that it names, and
/// an error where that function fails.
pub open spec fn answered(
    state: State,
    config: ConfigView,
    msg: QueryMsg,
    r: Result<QueryResponse, StdError>,
) -> bool {
    match msg {
        QueryMsg::GetUserDeposit { user } => match state.balance(user@) {
            Some(held) => r matches Ok(QueryResponse::UserDeposit(found)) && found@ == (
                user@,
                held,
            ),
            None => r is Err,
        },
        QueryMsg::GetAllUsers { start_after, limit } => match state.page(
            start_after.deep_view(),
            limit,
        ) {
            Ok(page) => r matches Ok(QueryResponse::AllUsers(found)) && found@ == page,
            Err(kind) => r is Err && (kind != ErrorKind::Std ==> r == Err::<
                QueryResponse,
                StdError,
            >(generic_error(kind.text()))),
        },
        QueryMsg::GetUserCount {  } => match state.user_count {
            Some(count) => r matches Ok(QueryResponse::UserCount(found)) && found.count == count,
            None => r is Err,
        },
        QueryMsg::GetTotalDeposits {  } => match state.total_deposits {
            Some(total) => r matches Ok(QueryResponse::TotalDeposits(found)) && found.total
                == total,
            None => r is Err,
        },
        QueryMsg::GetConfig {  } => r matches Ok(QueryResponse::Config(found)) && found@ == config,
        QueryMsg::ValidateIndex {  } => match state.audit() {
            Some(report) => r matches Ok(QueryResponse::ValidateIndex(found)) && found@ == report,
            None => r is Err,
        },
        QueryMsg::GetWithdrawalInfo {  } => match withdrawal_info(state) {
            Some(info) => r matches Ok(QueryResponse::WithdrawalInfo(found)) && found@ == info,
            None => r is Err,
        },
    }
}

/// Answers a query. A listing that is refused comes back as a generic error
/// with the refusal in words.
pub fn query(store: &Store, config: &Config, _env: Env, msg: QueryMsg) -> (r: Result<
    QueryResponse,
    StdError,
>)
    ensures
        answered(store@, config@, msg, r),
{
    match msg {
        QueryMsg::GetUserDeposit { user } => match query_user_deposit(store, user) {
            Ok(found) => Ok(QueryResponse::UserDeposit(found)),
            Err(e) => Err(e),
        },
        QueryMsg::GetAllUsers { start_after, limit } => match query_all_users(
            store,
            start_after,
            limit,
        ) {
            Ok(found) => Ok(QueryResponse::AllUsers(found)),
            Err(e) => Err(generic_err(e.to_string().as_str())),
        },
        QueryMsg::GetUserCount {  } => match query_user_count(store) {
            Ok(found) => Ok(QueryResponse::UserCount(found)),
            Err(e) => Err(e),
        },
        QueryMsg::GetTotalDeposits {  } => match query_total_deposits(store) {
            Ok(found) => Ok(QueryResponse::TotalDeposits(found)),
            Err(e) => Err(e),
        },
        QueryMsg::GetConfig {  } => match query_config(config) {
            Ok(found) => Ok(QueryResponse::Config(found)),
            Err(e) => Err(e),
        },
        QueryMsg::ValidateIndex {  } => match query_validate_index(store) {
            Ok(found) => Ok(QueryResponse::ValidateIndex(found)),
            Err(e) => Err(e),
        },
        QueryMsg::GetWithdrawalInfo {  } => match query_withdrawal_info(store) {
            Ok(found) => Ok(QueryResponse::WithdrawalInfo(found)),
            Err(e) => Err(e),
        },
    }
}

} // verus!
