use cosmwasm_std::testing::{mock_env, MockQuerier, MockStorage};
use cosmwasm_std::{Addr, QuerierWrapper, StdError, Uint128};
use ustc_preregister::contract::{execute, instantiate, query};
use ustc_preregister::error::ContractError;
use ustc_preregister::msg::{
    BankMsg, Coin, Env, ExecuteMsg, GetAllUsersResponse, GetConfigResponse,
    GetTotalDepositsResponse, GetUserCountResponse, GetUserDepositResponse, InstantiateMsg,
    MessageInfo, QueryMsg, QueryResponse, Response,
};
use ustc_preregister::state::{Config, Store};

const USTC_DENOM: &str = "uusd";
const OWNER: &str = "owner";
const USER1: &str = "user1";
const USER2: &str = "user2";
const WITHDRAWAL_DEST: &str = "withdrawal_dest";

/// A ledger in a storage of its own, with the clock and the bank balance of
/// its account, as a chain would keep them.
struct Chain {
    storage: MockStorage,
    env: cosmwasm_std::Env,
    pool: u128,
}

impl Chain {
    fn new() -> Chain {
        Chain { storage: MockStorage::new(), env: mock_env(), pool: 0 }
    }

    fn env(&self) -> Env {
        Env { block_time: self.env.block.time.seconds() }
    }

    fn balance(&self) -> Result<Coin, StdError> {
        let held = vec![uusd(Uint128::new(self.pool))];
        let querier: MockQuerier =
            MockQuerier::new(&[(self.env.contract.address.as_str(), held.as_slice())]);
        QuerierWrapper::<cosmwasm_std::Empty>::new(&querier)
            .query_balance(&self.env.contract.address, USTC_DENOM)
            .map(|coin| Coin { denom: coin.denom, amount: coin.amount.u128() })
    }

    fn instantiate_contract(&mut self, sender: Addr, msg: InstantiateMsg) -> Config {
        let env = self.env();
        let info = MessageInfo { sender: sender.into_string(), funds: vec![] };
        let mut store = Store::new(&mut self.storage);
        instantiate(&mut store, env, info, msg).unwrap().0
    }

    /// Runs one message, and moves the funds as the bank would: those sent
    /// along into the pool, those of the transfers out of it.
    fn execute_contract(
        &mut self,
        config: &mut Config,
        sender: Addr,
        msg: ExecuteMsg,
        funds: &[cosmwasm_std::Coin],
    ) -> Result<Response, ContractError> {
        let env = self.env();
        let paid: u128 = funds.iter().map(|coin| coin.amount.u128()).sum();
        self.pool += paid;
        let balance = self.balance();
        let info = MessageInfo {
            sender: sender.into_string(),
            funds: funds
                .iter()
                .map(|coin| Coin { denom: coin.denom.clone(), amount: coin.amount.u128() })
                .collect(),
        };
        let mut store = Store::new(&mut self.storage);
        let res = execute(&mut store, config, env, info, msg, balance);
        match &res {
            Ok(response) => {
                for BankMsg::Send { amount, .. } in &response.messages {
                    let sent: u128 = amount.iter().map(|coin| coin.amount).sum();
                    self.pool -= sent;
                }
            }
            Err(_) => self.pool -= paid,
        }
        res
    }

    fn query_wasm_smart(&mut self, config: &Config, msg: QueryMsg) -> QueryResponse {
        let env = self.env();
        let store = Store::new(&mut self.storage);
        query(&store, config, env, msg).unwrap()
    }
}

fn config_of(answer: QueryResponse) -> GetConfigResponse {
    match answer {
        QueryResponse::Config(found) => found,
        other => panic!("unexpected answer: {:?}", other),
    }
}

fn deposit_of(answer: QueryResponse) -> GetUserDepositResponse {
    match answer {
        QueryResponse::UserDeposit(found) => found,
        other => panic!("unexpected answer: {:?}", other),
    }
}

fn total_of(answer: QueryResponse) -> GetTotalDepositsResponse {
    match answer {
        QueryResponse::TotalDeposits(found) => found,
        other => panic!("unexpected answer: {:?}", other),
    }
}

fn count_of(answer: QueryResponse) -> GetUserCountResponse {
    match answer {
        QueryResponse::UserCount(found) => found,
        other => panic!("unexpected answer: {:?}", other),
    }
}

fn users_of(answer: QueryResponse) -> GetAllUsersResponse {
    match answer {
        QueryResponse::AllUsers(found) => found,
        other => panic!("unexpected answer: {:?}", other),
    }
}

fn uusd(amount: Uint128) -> cosmwasm_std::Coin {
    cosmwasm_std::Coin { denom: USTC_DENOM.to_string(), amount }
}

#[test]
fn integration_test_instantiate() {
    let mut app = Chain::new();

    let msg = InstantiateMsg { owner: Addr::unchecked(OWNER).into_string() };
    let config = app.instantiate_contract(Addr::unchecked(OWNER), msg);

    let res = config_of(app.query_wasm_smart(&config, QueryMsg::GetConfig {}));
    assert_eq!(res.owner, Addr::unchecked(OWNER).into_string());
    assert_eq!(res.ustc_denom, USTC_DENOM);
}

#[test]
fn integration_test_deposit() {
    let mut app = Chain::new();

    let msg = InstantiateMsg { owner: Addr::unchecked(OWNER).into_string() };
    let mut config = app.instantiate_contract(Addr::unchecked(OWNER), msg);

    let deposit_amount = Uint128::from(1000u128);
    let msg = ExecuteMsg::Deposit {};
    app.execute_contract(&mut config, Addr::unchecked(USER1), msg, &[uusd(deposit_amount)])
        .unwrap();

    let query_msg = QueryMsg::GetUserDeposit { user: Addr::unchecked(USER1).into_string() };
    let res = deposit_of(app.query_wasm_smart(&config, query_msg));
    assert_eq!(res.deposit, deposit_amount.u128());

    let res = total_of(app.query_wasm_smart(&config, QueryMsg::GetTotalDeposits {}));
    assert_eq!(res.total, deposit_amount.u128());

    let res = count_of(app.query_wasm_smart(&config, QueryMsg::GetUserCount {}));
    assert_eq!(res.count, 1);
}

#[test]
fn integration_test_withdraw() {
    let mut app = Chain::new();

    let msg = InstantiateMsg { owner: Addr::unchecked(OWNER).into_string() };
    let mut config = app.instantiate_contract(Addr::unchecked(OWNER), msg);

    let deposit_amount = Uint128::from(1000u128);
    let msg = ExecuteMsg::Deposit {};
    app.execute_contract(&mut config, Addr::unchecked(USER1), msg, &[uusd(deposit_amount)])
        .unwrap();

    let withdraw_amount = Uint128::from(500u128);
    let msg = ExecuteMsg::Withdraw { amount: withdraw_amount.u128() };
    app.execute_contract(&mut config, Addr::unchecked(USER1), msg, &[]).unwrap();

    let query_msg = QueryMsg::GetUserDeposit { user: Addr::unchecked(USER1).into_string() };
    let res = deposit_of(app.query_wasm_smart(&config, query_msg));
    assert_eq!(res.deposit, (deposit_amount - withdraw_amount).u128());
}

#[test]
fn test_multiple_users() {
    let mut app = Chain::new();

    let msg = InstantiateMsg { owner: Addr::unchecked(OWNER).into_string() };
    let mut config = app.instantiate_contract(Addr::unchecked(OWNER), msg);

    let msg = ExecuteMsg::Deposit {};
    app.execute_contract(
        &mut config,
        Addr::unchecked(USER1),
        msg,
        &[uusd(Uint128::from(1000u128))],
    )
    .unwrap();

    let msg = ExecuteMsg::Deposit {};
    app.execute_contract(
        &mut config,
        Addr::unchecked(USER2),
        msg,
        &[uusd(Uint128::from(2000u128))],
    )
    .unwrap();

    let query_msg = QueryMsg::GetAllUsers { start_after: None, limit: None };
    let res = users_of(app.query_wasm_smart(&config, query_msg));
    assert_eq!(res.users.len(), 2);

    let res = total_of(app.query_wasm_smart(&config, QueryMsg::GetTotalDeposits {}));
    assert_eq!(res.total, Uint128::from(3000u128).u128());
}

#[test]
fn integration_test_owner_withdraw() {
    let mut app = Chain::new();

    let msg = InstantiateMsg { owner: Addr::unchecked(OWNER).into_string() };
    let mut config = app.instantiate_contract(Addr::unchecked(OWNER), msg);

    let msg = ExecuteMsg::Deposit {};
    app.execute_contract(
        &mut config,
        Addr::unchecked(USER1),
        msg,
        &[uusd(Uint128::from(1000u128))],
    )
    .unwrap();

    let current_time = app.env.block.time.seconds();

    let unlock_timestamp = current_time + 7 * 24 * 60 * 60 + 1;
    let msg = ExecuteMsg::SetWithdrawalDestination {
        destination: Addr::unchecked(WITHDRAWAL_DEST).into_string(),
        unlock_timestamp,
    };
    app.execute_contract(&mut config, Addr::unchecked(OWNER), msg, &[]).unwrap();

    app.env.block.time = app.env.block.time.plus_seconds(7 * 24 * 60 * 60 + 1);

    let msg = ExecuteMsg::OwnerWithdraw {};
    let res = app.execute_contract(&mut config, Addr::unchecked(OWNER), msg, &[]).unwrap();

    // The destination is sent the funds, not the owner.
    assert_eq!(res.messages.len(), 1);
    let BankMsg::Send { to_address, amount } = &res.messages[0];
    assert_eq!(to_address, WITHDRAWAL_DEST);
    assert_eq!(amount.len(), 1);
    assert_eq!(amount[0].denom, USTC_DENOM);
    assert_eq!(amount[0].amount, Uint128::from(1000u128).u128());
    assert_eq!(app.pool, 0);
}

#[test]
fn integration_test_unauthorized_owner_withdraw() {
    let mut app = Chain::new();

    let msg = InstantiateMsg { owner: Addr::unchecked(OWNER).into_string() };
    let mut config = app.instantiate_contract(Addr::unchecked(OWNER), msg);

    let msg = ExecuteMsg::OwnerWithdraw {};
    let res = app.execute_contract(&mut config, Addr::unchecked(USER1), msg, &[]);
    assert!(res.is_err());
}
