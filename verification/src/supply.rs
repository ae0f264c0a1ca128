//! The total supply of a ledger, the sum of all balances, and how transfers
//! and burns change it.

use vstd::prelude::*;
use crate::contract::{burn_outcome, seeded, transfer_outcome};
use crate::state::balance_of;
use crate::theorems::seed_leaves_unnamed_address;

verus! {

/// The sum of all balances of a balance map with finitely many addresses.
pub open spec fn supply(balances: Map<Seq<u8>, u128>) -> nat
    decreases balances.dom().len(),
    when balances.dom().finite()
{
    if balances.dom().len() == 0 {
        0
    } else {
        let address = balances.dom().choose();
        balances[address] as nat + supply(balances.remove(address))
    }
}

/// The supply is the balance of any one address plus the supply of the rest.
pub proof fn supply_splits_at(balances: Map<Seq<u8>, u128>, address: Seq<u8>)
    requires
        balances.dom().finite(),
        balances.dom().contains(address),
    ensures
        supply(balances) == balances[address] + supply(balances.remove(address)),
    decreases balances.dom().len(),
{
    let chosen = balances.dom().choose();
    if chosen != address {
        supply_splits_at(balances.remove(chosen), address);
        supply_splits_at(balances.remove(address), chosen);
        assert(balances.remove(chosen).remove(address) == balances.remove(address).remove(chosen));
    }
}

/// Writing one balance changes the supply by the difference between the new
/// amount and what the address held.
pub proof fn supply_after_write(balances: Map<Seq<u8>, u128>, address: Seq<u8>, amount: u128)
    requires
        balances.dom().finite(),
    ensures
        balances.insert(address, amount).dom().finite(),
        supply(balances.insert(address, amount)) == supply(balances) - balance_of(
            balances,
            address,
        ) + amount,
{
    let written = balances.insert(address, amount);
    supply_splits_at(written, address);
    assert(written.remove(address) == balances.remove(address));
    if balances.dom().contains(address) {
        supply_splits_at(balances, address);
    } else {
        assert(balances.remove(address) == balances);
    }
}

/// No balance exceeds the supply.
pub proof fn balance_within_supply(balances: Map<Seq<u8>, u128>, address: Seq<u8>)
    requires
        balances.dom().finite(),
    ensures
        balance_of(balances, address) <= supply(balances),
{
    if balances.dom().contains(address) {
        supply_splits_at(balances, address);
    }
}

/// A transfer neither creates nor destroys value: the supply after it is the
/// supply before it.
pub proof fn transfer_conserves_supply(
    balances: Map<Seq<u8>, u128>,
    sender: Seq<u8>,
    recipient: Seq<u8>,
    amount: u128,
)
    requires
        balances.dom().finite(),
        transfer_outcome(balances, sender, recipient, amount) is Ok,
    ensures
        transfer_outcome(balances, sender, recipient, amount)->Ok_0.dom().finite(),
        supply(transfer_outcome(balances, sender, recipient, amount)->Ok_0) == supply(balances),
{
    let balance = balance_of(balances, sender);
    let debited = balances.insert(sender, (balance - amount) as u128);
    supply_after_write(balances, sender, (balance - amount) as u128);
    supply_after_write(debited, recipient, (balance_of(debited, recipient) + amount) as u128);
}

/// A burn lowers the supply by exactly the amount burned, so the supply never
/// grows under burns and never falls below zero.
pub proof fn burn_lowers_supply(balances: Map<Seq<u8>, u128>, sender: Seq<u8>, amount: u128)
    requires
        balances.dom().finite(),
        burn_outcome(balances, sender, amount) is Ok,
    ensures
        burn_outcome(balances, sender, amount)->Ok_0.dom().finite(),
        supply(burn_outcome(balances, sender, amount)->Ok_0) == supply(balances) - amount,
        amount <= supply(balances),
{
    let balance = balance_of(balances, sender);
    supply_after_write(balances, sender, (balance - amount) as u128);
    balance_within_supply(balances, sender);
}

/// Seeding a map of finitely many addresses gives one of finitely many.
pub proof fn seeded_is_finite(balances: Map<Seq<u8>, u128>, rows: Seq<(Seq<u8>, u128)>)
    requires
        balances.dom().finite(),
    ensures
        seeded(balances, rows).dom().finite(),
    decreases rows.len(),
{
    if rows.len() > 0 {
        seeded_is_finite(balances, rows.drop_last());
    }
}

/// The sum of the amounts of seed rows.
pub open spec fn row_total(rows: Seq<(Seq<u8>, u128)>) -> nat
    decreases rows.len(),
{
    if rows.len() == 0 {
        0
    } else {
        row_total(rows.drop_last()) + rows.last().1 as nat
    }
}

/// Seeding an empty ledger with rows of pairwise different addresses mints
/// the sum of their amounts.
pub proof fn seeded_supply_of_distinct_rows(rows: Seq<(Seq<u8>, u128)>)
    requires
        forall|i: int, j: int| 0 <= i < j < rows.len() ==> rows[i].0 != rows[j].0,
    ensures
        supply(seeded(Map::empty(), rows)) == row_total(rows),
    decreases rows.len(),
{
    if rows.len() > 0 {
        let earlier = rows.drop_last();
        seeded_supply_of_distinct_rows(earlier);
        seeded_is_finite(Map::empty(), earlier);
        seed_leaves_unnamed_address(Map::empty(), earlier, rows.last().0);
        supply_after_write(seeded(Map::empty(), earlier), rows.last().0, rows.last().1);
    } else {
        assert(Map::<Seq<u8>, u128>::empty().dom().len() == 0);
    }
}

} // verus!
