//! What goes into the ledger and what comes out: the messages, the answers to
//! queries, and the plain records that stand for a call's surroundings.

use vstd::prelude::*;

verus! {

/// An amount of one denomination.
#[derive(Clone, Debug, PartialEq, Eq)]
pub struct Coin {
    pub denom: String,
    pub amount: u128,
}

pub struct CoinView {
    pub denom: Seq<char>,
    pub amount: u128,
}

impl View for Coin {
    type V = CoinView;

    open spec fn view(&self) -> CoinView {
        CoinView { denom: self.denom@, amount: self.amount }
    }
}

impl DeepView for Coin {
    type V = CoinView;

    open spec fn deep_view(&self) -> CoinView {
        self@
    }
}

/// Who calls, and the funds that came with the call.
#[derive(Clone, Debug, PartialEq, Eq)]
pub struct MessageInfo {
    pub sender: String,
    pub funds: Vec<Coin>,
}

pub struct MessageInfoView {
    pub sender: Seq<char>,
    pub funds: Seq<CoinView>,
}

impl View for MessageInfo {
    type V = MessageInfoView;

    open spec fn view(&self) -> MessageInfoView {
        MessageInfoView { sender: self.sender@, funds: self.funds.deep_view() }
    }
}

/// The time of the call, in seconds since the epoch.
#[derive(Clone, Copy, Debug, PartialEq, Eq)]
pub struct Env {
    pub block_time: u64,
}

/// One key and value of the record that an operation leaves.
#[derive(Clone, Debug, PartialEq, Eq)]
pub struct Attribute {
    pub key: String,
    pub value: String,
}

impl View for Attribute {
    type V = (Seq<char>, Seq<char>);

    open spec fn view(&self) -> (Seq<char>, Seq<char>) {
        (self.key@, self.value@)
    }
}

impl DeepView for Attribute {
    type V = (Seq<char>, Seq<char>);

    open spec fn deep_view(&self) -> (Seq<char>, Seq<char>) {
        self@
    }
}

/// A transfer that the host is asked to make once the call has returned.
#[derive(Clone, Debug, PartialEq, Eq)]
pub enum BankMsg {
    Send { to_address: String, amount: Vec<Coin> },
}

pub enum BankMsgView {
    Send { to_address: Seq<char>, amount: Seq<CoinView> },
}

impl View for BankMsg {
    type V = BankMsgView;

    open spec fn view(&self) -> BankMsgView {
        match *self {
            BankMsg::Send { to_address, amount } => BankMsgView::Send {
                to_address: to_address@,
                amount: amount.deep_view(),
            },
        }
    }
}

impl DeepView for BankMsg {
    type V = BankMsgView;

    open spec fn deep_view(&self) -> BankMsgView {
        self@
    }
}

/// What a successful operation hands back: the transfers it asks for and the
/// record of what it did.
#[derive(Clone, Debug, PartialEq, Eq)]
pub struct Response {
    pub messages: Vec<BankMsg>,
    pub attributes: Vec<Attribute>,
}

pub struct ResponseView {
    pub messages: Seq<BankMsgView>,
    pub attributes: Seq<(Seq<char>, Seq<char>)>,
}

impl View for Response {
    type V = ResponseView;

    open spec fn view(&self) -> ResponseView {
        ResponseView {
            messages: self.messages.deep_view(),
            attributes: self.attributes.deep_view(),
        }
    }
}

#[derive(Clone, Debug, PartialEq, Eq)]
pub struct InstantiateMsg {
    pub owner: String,
}

#[derive(Clone, Debug, PartialEq, Eq)]
pub enum ExecuteMsg {
    Deposit {},
    Withdraw { amount: u128 },
    OwnerWithdraw {},
    UpdateConfig { owner: Option<String> },
    /// Announces where and when the pool may be swept. The time must lie at
    /// least seven days ahead; a later call replaces both.
    SetWithdrawalDestination { destination: String, unlock_timestamp: u64 },
}

#[derive(Clone, Debug, PartialEq, Eq)]
pub enum QueryMsg {
    GetUserDeposit { user: String },
    /// One page of the accounts with their balances: those after
    /// `start_after` in slot order, at most `limit` of them (30 where none is
    /// given, never more than 100).
    GetAllUsers { start_after: Option<String>, limit: Option<u32> },
    GetUserCount {},
    GetTotalDeposits {},
    GetConfig {},
    /// Scans the whole index and reports what contradicts the balances.
    ValidateIndex {},
    GetWithdrawalInfo {},
}

#[derive(Clone, Debug, PartialEq, Eq)]
pub struct GetUserDepositResponse {
    pub user: String,
    pub deposit: u128,
}

impl View for GetUserDepositResponse {
    type V = (Seq<char>, u128);

    open spec fn view(&self) -> (Seq<char>, u128) {
        (self.user@, self.deposit)
    }
}

#[derive(Clone, Copy, Debug, PartialEq, Eq)]
pub struct GetUserCountResponse {
    pub count: u32,
}

#[derive(Clone, Debug, PartialEq, Eq)]
pub struct GetAllUsersResponse {
    pub users: Vec<(String, u128)>,
    /// The cursor for the page that follows, where slots remain.
    pub next: Option<String>,
}

pub struct PageView {
    pub users: Seq<(Seq<char>, u128)>,
    pub next: Option<Seq<char>>,
}

impl View for GetAllUsersResponse {
    type V = PageView;

    open spec fn view(&self) -> PageView {
        PageView { users: self.users.deep_view(), next: self.next.deep_view() }
    }
}

#[derive(Clone, Copy, Debug, PartialEq, Eq)]
pub struct GetTotalDepositsResponse {
    pub total: u128,
}

#[derive(Clone, Debug, PartialEq, Eq)]
pub struct GetConfigResponse {
    pub owner: String,
    pub ustc_denom: String,
}

impl View for GetConfigResponse {
    type V = crate::state::ConfigView;

    open spec fn view(&self) -> crate::state::ConfigView {
        crate::state::ConfigView { owner: self.owner@, ustc_denom: self.ustc_denom@ }
    }
}

#[derive(Clone, Debug, PartialEq, Eq)]
pub struct ValidateIndexResponse {
    pub is_consistent: bool,
    pub issues: Vec<String>,
    pub user_count_stored: u32,
    pub user_count_actual: u32,
    pub total_users_in_index: u32,
}

pub struct AuditView {
    pub is_consistent: bool,
    pub issues: Seq<Seq<char>>,
    pub user_count_stored: u32,
    pub user_count_actual: u32,
    pub total_users_in_index: u32,
}

impl View for ValidateIndexResponse {
    type V = AuditView;

    open spec fn view(&self) -> AuditView {
        AuditView {
            is_consistent: self.is_consistent,
            issues: self.issues.deep_view(),
            user_count_stored: self.user_count_stored,
            user_count_actual: self.user_count_actual,
            total_users_in_index: self.total_users_in_index,
        }
    }
}

#[derive(Clone, Debug, PartialEq, Eq)]
pub struct GetWithdrawalInfoResponse {
    /// Where a sweep would go, once announced.
    pub destination: Option<String>,
    /// When a sweep becomes possible, in seconds; 0 until announced.
    pub unlock_timestamp: u64,
    /// Whether both have been announced.
    pub is_configured: bool,
}

pub struct WithdrawalInfoView {
    pub destination: Option<Seq<char>>,
    pub unlock_timestamp: u64,
    pub is_configured: bool,
}

impl View for GetWithdrawalInfoResponse {
    type V = WithdrawalInfoView;

    open spec fn view(&self) -> WithdrawalInfoView {
        WithdrawalInfoView {
            destination: self.destination.deep_view(),
            unlock_timestamp: self.unlock_timestamp,
            is_configured: self.is_configured,
        }
    }
}

/// The answer to a query, by the kind of the query.
#[derive(Clone, Debug, PartialEq, Eq)]
pub enum QueryResponse {
    UserDeposit(GetUserDepositResponse),
    AllUsers(GetAllUsersResponse),
    UserCount(GetUserCountResponse),
    TotalDeposits(GetTotalDepositsResponse),
    Config(GetConfigResponse),
    ValidateIndex(ValidateIndexResponse),
    WithdrawalInfo(GetWithdrawalInfoResponse),
}

} // verus!
