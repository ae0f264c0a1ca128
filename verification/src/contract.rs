//! The ledger engine: the state transitions `init`, `handle` (transfer and
//! burn) and the read-only `query`, each stated over the balance map and the
//! configuration record of the storage it is given.

use vstd::prelude::*;
use cosmwasm_std::MemoryStorage;
use crate::error::LedgerError;
use crate::msg::{
    AuditRecord, AuditRecordView, BalanceResponse, ConfigResponse, HandleMsg, HandleMsgView,
    InitMsg, InitialBalance, QueryMsg, QueryMsgView, QueryResponse, QueryResponseView,
};
use crate::state::{
    balance_get, balance_of, balance_set, config_get, config_set, stored_balances, stored_config,
    Config, ConfigView,
};

verus! {

/// What a transfer of `amount` from `sender` to `recipient` makes of a
/// balance map. The sender is debited first and the recipient is credited on
/// top of the debited map, so a transfer to oneself nets to the balance one
/// had; the credit must stay within `u128`.
pub open spec fn transfer_outcome(
    balances: Map<Seq<u8>, u128>,
    sender: Seq<u8>,
    recipient: Seq<u8>,
    amount: u128,
) -> Result<Map<Seq<u8>, u128>, LedgerError> {
    let balance = balance_of(balances, sender);
    if balance < amount {
        Err(LedgerError::InsufficientFunds { balance, required: amount })
    } else {
        let debited = balances.insert(sender, (balance - amount) as u128);
        let held = balance_of(debited, recipient);
        if held + amount > u128::MAX {
            Err(LedgerError::Overflow)
        } else {
            Ok(debited.insert(recipient, (held + amount) as u128))
        }
    }
}

/// What burning `amount` of `sender`'s balance makes of a balance map.
pub open spec fn burn_outcome(balances: Map<Seq<u8>, u128>, sender: Seq<u8>, amount: u128) -> Result<
    Map<Seq<u8>, u128>,
    LedgerError,
> {
    let balance = balance_of(balances, sender);
    if balance < amount {
        Err(LedgerError::InsufficientFunds { balance, required: amount })
    } else {
        Ok(balances.insert(sender, (balance - amount) as u128))
    }
}

/// What applying seed rows in order makes of a balance map: each row
/// replaces whatever its address held, so of two rows for one address the
/// later one stands.
pub open spec fn seeded(balances: Map<Seq<u8>, u128>, rows: Seq<(Seq<u8>, u128)>) -> Map<
    Seq<u8>,
    u128,
>
    decreases rows.len(),
{
    if rows.len() == 0 {
        balances
    } else {
        seeded(balances, rows.drop_last()).insert(rows.last().0, rows.last().1)
    }
}

/// The seed rows of an `InitMsg` as plain pairs of address and amount.
pub open spec fn seed_rows(rows: Seq<InitialBalance>) -> Seq<(Seq<u8>, u128)> {
    rows.map_values(|row: InitialBalance| row@)
}

/// The answer that a query gets from a ledger with the given balances and
/// configuration record.
pub open spec fn query_answer(
    balances: Map<Seq<u8>, u128>,
    config: Option<ConfigView>,
    msg: QueryMsgView,
) -> Result<QueryResponseView, LedgerError> {
    match msg {
        QueryMsgView::Balance { address } => Ok(
            QueryResponseView::Balance { balance: balance_of(balances, address) },
        ),
        QueryMsgView::Config => match config {
            Some(record) => Ok(QueryResponseView::Config(record)),
            None => Err(LedgerError::NotInitialized),
        },
    }
}

/// Whether `r` and the storage `after` are what applying a balance-changing
/// request to the storage `before` gives, where `outcome` is what the request
/// makes of the balances and `record` describes it. A request that goes
/// through replaces the balances and returns the record; one that is refused
/// returns its error and leaves the storage as it was. The configuration
/// record stays in either case.
pub open spec fn applied(
    before: MemoryStorage,
    after: MemoryStorage,
    outcome: Result<Map<Seq<u8>, u128>, LedgerError>,
    record: AuditRecordView,
    r: Result<AuditRecord, LedgerError>,
) -> bool {
    &&& stored_config(after) == stored_config(before)
    &&& match outcome {
        Ok(balances) => stored_balances(after) == balances && r is Ok && r->Ok_0@ == record,
        Err(e) => r == Err::<AuditRecord, LedgerError>(e) && after == before,
    }
}

/// Sets the ledger up: writes the seed rows of `msg` in order, then the
/// configuration record with `sender` as the owner. Amounts are taken as they
/// are, zero included.
pub fn init(storage: &mut MemoryStorage, sender: Vec<u8>, msg: InitMsg) -> (r: Result<
    (),
    LedgerError,
>)
    ensures
        r is Ok,
        stored_balances(*final(storage)) == seeded(
            stored_balances(*old(storage)),
            seed_rows(msg.initial_balances@),
        ),
        stored_config(*final(storage)) == Some(
            ConfigView { name: msg.name@, symbol: msg.symbol@, owner: sender@ },
        ),
{
    let ghost rows = seed_rows(msg.initial_balances@);
    let mut i: usize = 0;
    while i < msg.initial_balances.len()
        invariant
            i <= msg.initial_balances.len(),
            rows == seed_rows(msg.initial_balances@),
            stored_balances(*storage) == seeded(stored_balances(*old(storage)), rows.take(i as int)),
        decreases msg.initial_balances.len() - i,
    {
        let row = &msg.initial_balances[i];
        if balance_set(storage, &row.address, row.amount).is_err() {
            return Err(LedgerError::StorageFailure);
        }
        proof {
            assert(rows.take(i + 1).drop_last() == rows.take(i as int));
            assert(rows.take(i + 1).last() == row@);
        }
        i += 1;
    }
    assert(rows.take(i as int) == rows);
    let config = Config { name: msg.name, symbol: msg.symbol, owner: sender };
    if config_set(storage, &config).is_err() {
        return Err(LedgerError::StorageFailure);
    }
    Ok(())
}

/// Moves `amount` from `sender` to `recipient`. Both new balances are
/// computed before either is written, so a refused transfer writes nothing.
pub fn try_transfer(
    storage: &mut MemoryStorage,
    sender: &Vec<u8>,
    recipient: &Vec<u8>,
    amount: u128,
) -> (r: Result<AuditRecord, LedgerError>)
    ensures
        applied(
            *old(storage),
            *final(storage),
            transfer_outcome(stored_balances(*old(storage)), sender@, recipient@, amount),
            AuditRecordView::Transfer { sender: sender@, recipient: recipient@, amount },
            r,
        ),
{
    let sender_balance: u128 = balance_get(storage, sender);
    if sender_balance < amount {
        return Err(LedgerError::InsufficientFunds { balance: sender_balance, required: amount });
    }
    let sender_after: u128 = sender_balance - amount;
    let same_account: bool = *sender == *recipient;
    assert(same_account <==> sender@ == recipient@) by {
        if same_account {
            assert(sender@ =~= recipient@);
        }
    }
    let held: u128 = if same_account {
        sender_after
    } else {
        balance_get(storage, recipient)
    };
    let recipient_after: u128 = match held.checked_add(amount) {
        Some(sum) => sum,
        None => {
            return Err(LedgerError::Overflow);
        },
    };
    if balance_set(storage, sender, sender_after).is_err() {
        return Err(LedgerError::StorageFailure);
    }
    if balance_set(storage, recipient, recipient_after).is_err() {
        return Err(LedgerError::StorageFailure);
    }
    Ok(AuditRecord::Transfer { sender: sender.clone(), recipient: recipient.clone(), amount })
}

/// Destroys `amount` of `sender`'s balance; nothing is credited anywhere.
pub fn try_burn(storage: &mut MemoryStorage, sender: &Vec<u8>, amount: u128) -> (r: Result<
    AuditRecord,
    LedgerError,
>)
    ensures
        applied(
            *old(storage),
            *final(storage),
            burn_outcome(stored_balances(*old(storage)), sender@, amount),
            AuditRecordView::Burn { sender: sender@, amount },
            r,
        ),
{
    let sender_balance: u128 = balance_get(storage, sender);
    if sender_balance < amount {
        return Err(LedgerError::InsufficientFunds { balance: sender_balance, required: amount });
    }
    let sender_after: u128 = sender_balance - amount;
    if balance_set(storage, sender, sender_after).is_err() {
        return Err(LedgerError::StorageFailure);
    }
    Ok(AuditRecord::Burn { sender: sender.clone(), amount })
}

/// Applies one balance-changing request made by `sender`.
pub fn handle(storage: &mut MemoryStorage, sender: &Vec<u8>, msg: HandleMsg) -> (r: Result<
    AuditRecord,
    LedgerError,
>)
    ensures
        match msg@ {
            HandleMsgView::Transfer { recipient, amount } => applied(
                *old(storage),
                *final(storage),
                transfer_outcome(stored_balances(*old(storage)), sender@, recipient, amount),
                AuditRecordView::Transfer { sender: sender@, recipient, amount },
                r,
            ),
            HandleMsgView::Burn { amount } => applied(
                *old(storage),
                *final(storage),
                burn_outcome(stored_balances(*old(storage)), sender@, amount),
                AuditRecordView::Burn { sender: sender@, amount },
                r,
            ),
        },
{
    match msg {
        HandleMsg::Transfer { recipient, amount } => try_transfer(storage, sender, &recipient, amount),
        HandleMsg::Burn { amount } => try_burn(storage, sender, amount),
    }
}

/// Whether `r` is what `query` returns for `msg` on `storage`: the answer of
/// `query_answer`, or its refusal.
pub open spec fn query_returns(
    storage: MemoryStorage,
    msg: QueryMsgView,
    r: Result<QueryResponse, LedgerError>,
) -> bool {
    match query_answer(stored_balances(storage), stored_config(storage), msg) {
        Ok(answer) => r is Ok && r->Ok_0@ == answer,
        Err(e) => r == Err::<QueryResponse, LedgerError>(e),
    }
}

/// Answers a read-only request. The storage is only read, so the same
/// request gets the same answer until a write intervenes.
pub fn query(storage: &MemoryStorage, msg: QueryMsg) -> (r: Result<QueryResponse, LedgerError>)
    ensures
        query_returns(*storage, msg@, r),
{
    match msg {
        QueryMsg::Balance { address } => {
            let balance: u128 = balance_get(storage, &address);
            Ok(QueryResponse::Balance(BalanceResponse { balance }))
        },
        QueryMsg::Config {  } => {
            match config_get(storage) {
                Ok(config) => Ok(
                    QueryResponse::Config(
                        ConfigResponse {
                            name: config.name,
                            symbol: config.symbol,
                            owner: config.owner,
                        },
                    ),
                ),
                Err(_) => Err(LedgerError::NotInitialized),
            }
        },
    }
}

} // verus!
