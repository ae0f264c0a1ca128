//! What holds of every transfer, burn, seeding and query, proved over the
//! outcome functions that the engine's contracts are stated with.

use vstd::prelude::*;
use cosmwasm_std::MemoryStorage;
use crate::contract::{burn_outcome, query_answer, query_returns, seeded, transfer_outcome};
use crate::error::LedgerError;
use crate::msg::{QueryMsgView, QueryResponse, QueryResponseView};
use crate::state::{balance_of, ConfigView};

verus! {

/// A covered transfer between two different accounts, whose credit stays in
/// range, takes exactly `amount` from the sender, gives exactly `amount` to
/// the recipient, keeps the sum of the two balances, and leaves every other
/// account as it was.
pub proof fn transfer_moves_amount(
    balances: Map<Seq<u8>, u128>,
    sender: Seq<u8>,
    recipient: Seq<u8>,
    amount: u128,
)
    requires
        sender != recipient,
        balance_of(balances, sender) >= amount,
        balance_of(balances, recipient) + amount <= u128::MAX,
    ensures
        transfer_outcome(balances, sender, recipient, amount) is Ok,
        ({
            let after = transfer_outcome(balances, sender, recipient, amount)->Ok_0;
            &&& balance_of(after, sender) == balance_of(balances, sender) - amount
            &&& balance_of(after, recipient) == balance_of(balances, recipient) + amount
            &&& balance_of(after, sender) + balance_of(after, recipient) == balance_of(
                balances,
                sender,
            ) + balance_of(balances, recipient)
            &&& forall|other: Seq<u8>|
                other != sender && other != recipient ==> balance_of(after, other) == balance_of(
                    balances,
                    other,
                )
        }),
{
}

/// A covered transfer to oneself always succeeds and changes no balance,
/// whatever the amount.
pub proof fn transfer_to_self_keeps_balances(
    balances: Map<Seq<u8>, u128>,
    account: Seq<u8>,
    amount: u128,
)
    requires
        balance_of(balances, account) >= amount,
    ensures
        transfer_outcome(balances, account, account, amount) is Ok,
        forall|any: Seq<u8>|
            balance_of(transfer_outcome(balances, account, account, amount)->Ok_0, any)
                == balance_of(balances, any),
{
}

/// A transfer of more than the sender holds is refused with the sender's
/// balance and the amount asked for; a refusal yields no new balance map.
pub proof fn transfer_refused_without_funds(
    balances: Map<Seq<u8>, u128>,
    sender: Seq<u8>,
    recipient: Seq<u8>,
    amount: u128,
)
    requires
        amount > balance_of(balances, sender),
    ensures
        transfer_outcome(balances, sender, recipient, amount) == Err::<
            Map<Seq<u8>, u128>,
            LedgerError,
        >(
            LedgerError::InsufficientFunds {
                balance: balance_of(balances, sender),
                required: amount,
            },
        ),
{
}

/// A transfer succeeds exactly when the sender covers the amount and the
/// credit stays in range; it never creates or destroys value.
pub proof fn transfer_succeeds_exactly_when_covered(
    balances: Map<Seq<u8>, u128>,
    sender: Seq<u8>,
    recipient: Seq<u8>,
    amount: u128,
)
    ensures
        transfer_outcome(balances, sender, recipient, amount) is Ok <==> {
            &&& balance_of(balances, sender) >= amount
            &&& (sender != recipient ==> balance_of(balances, recipient) + amount <= u128::MAX)
        },
        transfer_outcome(balances, sender, recipient, amount) == Err::<
            Map<Seq<u8>, u128>,
            LedgerError,
        >(LedgerError::Overflow) <==> {
            &&& balance_of(balances, sender) >= amount
            &&& sender != recipient
            &&& balance_of(balances, recipient) + amount > u128::MAX
        },
{
}

/// A covered burn takes exactly `amount` from the sender and leaves every
/// other account as it was.
pub proof fn burn_removes_amount(balances: Map<Seq<u8>, u128>, sender: Seq<u8>, amount: u128)
    requires
        amount <= balance_of(balances, sender),
    ensures
        burn_outcome(balances, sender, amount) is Ok,
        balance_of(burn_outcome(balances, sender, amount)->Ok_0, sender) == balance_of(
            balances,
            sender,
        ) - amount,
        forall|other: Seq<u8>|
            other != sender ==> balance_of(burn_outcome(balances, sender, amount)->Ok_0, other)
                == balance_of(balances, other),
{
}

/// A burn of more than the sender holds is refused with the sender's balance
/// and the amount asked for; a refusal yields no new balance map.
pub proof fn burn_refused_without_funds(balances: Map<Seq<u8>, u128>, sender: Seq<u8>, amount: u128)
    requires
        amount > balance_of(balances, sender),
    ensures
        burn_outcome(balances, sender, amount) == Err::<Map<Seq<u8>, u128>, LedgerError>(
            LedgerError::InsufficientFunds {
                balance: balance_of(balances, sender),
                required: amount,
            },
        ),
{
}

/// No burn raises a balance: after a burn every account holds at most what
/// it held before.
pub proof fn burn_never_raises_a_balance(
    balances: Map<Seq<u8>, u128>,
    sender: Seq<u8>,
    amount: u128,
    account: Seq<u8>,
)
    requires
        burn_outcome(balances, sender, amount) is Ok,
    ensures
        balance_of(burn_outcome(balances, sender, amount)->Ok_0, account) <= balance_of(
            balances,
            account,
        ),
{
}

/// A balance query for an address that the balance map does not hold is
/// answered with zero, not refused.
pub proof fn unwritten_balance_is_zero(
    balances: Map<Seq<u8>, u128>,
    config: Option<ConfigView>,
    address: Seq<u8>,
)
    requires
        !balances.dom().contains(address),
    ensures
        query_answer(balances, config, QueryMsgView::Balance { address }) == Ok::<
            QueryResponseView,
            LedgerError,
        >(QueryResponseView::Balance { balance: 0 }),
{
}

/// Transfers and burns never take an address out of the balance map, and put
/// in only the sender and the recipient.
pub proof fn operations_write_only_their_parties(
    balances: Map<Seq<u8>, u128>,
    sender: Seq<u8>,
    recipient: Seq<u8>,
    amount: u128,
    other: Seq<u8>,
)
    requires
        other != sender,
        other != recipient,
    ensures
        transfer_outcome(balances, sender, recipient, amount) is Ok ==> (transfer_outcome(
            balances,
            sender,
            recipient,
            amount,
        )->Ok_0.dom().contains(other) <==> balances.dom().contains(other)),
        burn_outcome(balances, sender, amount) is Ok ==> (burn_outcome(
            balances,
            sender,
            amount,
        )->Ok_0.dom().contains(other) <==> balances.dom().contains(other)),
{
}

/// Seeding leaves an address that no row names as it was.
pub proof fn seed_leaves_unnamed_address(
    balances: Map<Seq<u8>, u128>,
    rows: Seq<(Seq<u8>, u128)>,
    address: Seq<u8>,
)
    requires
        forall|j: int| 0 <= j < rows.len() ==> rows[j].0 != address,
    ensures
        seeded(balances, rows).dom().contains(address) <==> balances.dom().contains(address),
        balance_of(seeded(balances, rows), address) == balance_of(balances, address),
    decreases rows.len(),
{
    if rows.len() > 0 {
        seed_leaves_unnamed_address(balances, rows.drop_last(), address);
    }
}

/// Seeding is last-write-wins: an address holds the amount of the last row
/// that names it, whatever earlier rows or the map before said.
pub proof fn seed_last_row_wins(balances: Map<Seq<u8>, u128>, rows: Seq<(Seq<u8>, u128)>, i: int)
    requires
        0 <= i < rows.len(),
        forall|j: int| i < j < rows.len() ==> rows[j].0 != rows[i].0,
    ensures
        seeded(balances, rows).dom().contains(rows[i].0),
        balance_of(seeded(balances, rows), rows[i].0) == rows[i].1,
    decreases rows.len(),
{
    if i < rows.len() - 1 {
        seed_last_row_wins(balances, rows.drop_last(), i);
    }
}

/// Whatever `query` returns for a request on a storage, it returns again for
/// the same request on the same storage: both results succeed with the same
/// answer, or both fail with the same error.
pub proof fn query_is_repeatable(
    storage: MemoryStorage,
    msg: QueryMsgView,
    first: Result<QueryResponse, LedgerError>,
    second: Result<QueryResponse, LedgerError>,
)
    requires
        query_returns(storage, msg, first),
        query_returns(storage, msg, second),
    ensures
        first is Ok <==> second is Ok,
        first is Ok ==> first->Ok_0@ == second->Ok_0@,
        first is Err ==> first->Err_0 == second->Err_0,
{
}

} // verus!
