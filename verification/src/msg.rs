//! The requests that the ledger accepts and the answers that it gives.
//! Addresses are canonical: plain bytes, compared byte for byte.

use vstd::prelude::*;
use crate::state::ConfigView;

verus! {

/// One seed row: `address` starts with `amount`.
#[derive(Clone, Debug, PartialEq, Eq)]
pub struct InitialBalance {
    pub address: Vec<u8>,
    pub amount: u128,
}

/// Sets the ledger up: the token's metadata and the seed rows, applied in
/// order.
#[derive(Clone, Debug, PartialEq, Eq)]
pub struct InitMsg {
    pub name: String,
    pub symbol: String,
    pub initial_balances: Vec<InitialBalance>,
}

/// A request that changes balances, made by a sender.
#[derive(Clone, Debug, PartialEq, Eq)]
pub enum HandleMsg {
    /// Moves `amount` from the sender to `recipient`.
    Transfer { recipient: Vec<u8>, amount: u128 },
    /// Destroys `amount` of the sender's balance.
    Burn { amount: u128 },
}

/// A read-only request.
#[derive(Clone, Debug, PartialEq, Eq)]
pub enum QueryMsg {
    Balance { address: Vec<u8> },
    Config {  },
}

#[derive(Clone, Debug, PartialEq, Eq)]
pub struct BalanceResponse {
    pub balance: u128,
}

#[derive(Clone, Debug, PartialEq, Eq)]
pub struct ConfigResponse {
    pub name: String,
    pub symbol: String,
    pub owner: Vec<u8>,
}

/// The answer to a `QueryMsg`, one variant per request.
#[derive(Clone, Debug, PartialEq, Eq)]
pub enum QueryResponse {
    Balance(BalanceResponse),
    Config(ConfigResponse),
}

/// What an applied `HandleMsg` did, for the host's event log.
#[derive(Clone, Debug, PartialEq, Eq)]
pub enum AuditRecord {
    Transfer { sender: Vec<u8>, recipient: Vec<u8>, amount: u128 },
    Burn { sender: Vec<u8>, amount: u128 },
}

/// The mathematical value of a `HandleMsg`.
pub ghost enum HandleMsgView {
    Transfer { recipient: Seq<u8>, amount: u128 },
    Burn { amount: u128 },
}

/// The mathematical value of a `QueryMsg`.
pub ghost enum QueryMsgView {
    Balance { address: Seq<u8> },
    Config,
}

/// The mathematical value of a `QueryResponse`.
pub ghost enum QueryResponseView {
    Balance { balance: u128 },
    Config(ConfigView),
}

/// The mathematical value of an `AuditRecord`.
pub ghost enum AuditRecordView {
    Transfer { sender: Seq<u8>, recipient: Seq<u8>, amount: u128 },
    Burn { sender: Seq<u8>, amount: u128 },
}

impl View for InitialBalance {
    type V = (Seq<u8>, u128);

    open spec fn view(&self) -> (Seq<u8>, u128) {
        (self.address@, self.amount)
    }
}

impl View for HandleMsg {
    type V = HandleMsgView;

    open spec fn view(&self) -> HandleMsgView {
        match *self {
            HandleMsg::Transfer { recipient, amount } => HandleMsgView::Transfer {
                recipient: recipient@,
                amount,
            },
            HandleMsg::Burn { amount } => HandleMsgView::Burn { amount },
        }
    }
}

impl View for QueryMsg {
    type V = QueryMsgView;

    open spec fn view(&self) -> QueryMsgView {
        match *self {
            QueryMsg::Balance { address } => QueryMsgView::Balance { address: address@ },
            QueryMsg::Config {  } => QueryMsgView::Config,
        }
    }
}

impl View for QueryResponse {
    type V = QueryResponseView;

    open spec fn view(&self) -> QueryResponseView {
        match *self {
            QueryResponse::Balance(answer) => QueryResponseView::Balance { balance: answer.balance },
            QueryResponse::Config(answer) => QueryResponseView::Config(
                ConfigView { name: answer.name@, symbol: answer.symbol@, owner: answer.owner@ },
            ),
        }
    }
}

impl View for AuditRecord {
    type V = AuditRecordView;

    open spec fn view(&self) -> AuditRecordView {
        match *self {
            AuditRecord::Transfer { sender, recipient, amount } => AuditRecordView::Transfer {
                sender: sender@,
                recipient: recipient@,
                amount,
            },
            AuditRecord::Burn { sender, amount } => AuditRecordView::Burn { sender: sender@, amount },
        }
    }
}

} // verus!
