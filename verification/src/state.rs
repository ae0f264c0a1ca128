//! The two persistent stores of the ledger, both kept in one `MemoryStorage`:
//! the balance bucket, an address-indexed map of amounts, and the token
//! configuration, a single record.

use vstd::prelude::*;
use cosmwasm_std::{Binary, CanonicalAddr, MemoryStorage, StdError, Uint128};
use cosmwasm_storage::{Bucket, ReadonlyBucket, ReadonlySingleton, Singleton};

verus! {

/// Namespace of the configuration record.
pub const CONFIG_KEY: &'static str = "config";

/// Namespace of the balance bucket.
pub const BALANCE_KEY: &'static str = "balance";

#[verifier::external_type_specification]
#[verifier::external_body]
pub struct ExMemoryStorage(MemoryStorage);

#[verifier::external_type_specification]
#[verifier::external_body]
pub struct ExStdError(StdError);

/// Token metadata, written once when the ledger is set up.
#[derive(Clone, Debug, PartialEq, Eq)]
pub struct Config {
    pub name: String,
    pub symbol: String,
    /// Canonical address of the account that set the ledger up.
    pub owner: Vec<u8>,
}

/// The mathematical value of a `Config`.
pub ghost struct ConfigView {
    pub name: Seq<char>,
    pub symbol: Seq<char>,
    pub owner: Seq<u8>,
}

impl View for Config {
    type V = ConfigView;

    open spec fn view(&self) -> ConfigView {
        ConfigView { name: self.name@, symbol: self.symbol@, owner: self.owner@ }
    }
}

/// The balance bucket of a storage: an address is in the domain exactly when
/// `ReadonlyBucket::may_load` finds a readable amount under it, and is then
/// mapped to that amount.
pub uninterp spec fn stored_balances(storage: MemoryStorage) -> Map<Seq<u8>, u128>;

/// The configuration record of a storage: what `ReadonlySingleton::load`
/// reads, `None` where it reads nothing.
pub uninterp spec fn stored_config(storage: MemoryStorage) -> Option<ConfigView>;

/// The balance of `address` in a balance map; an address that the map does
/// not hold has balance zero.
pub open spec fn balance_of(balances: Map<Seq<u8>, u128>, address: Seq<u8>) -> u128 {
    if balances.dom().contains(address) {
        balances[address]
    } else {
        0u128
    }
}

/// Writes the configuration record with `Singleton::save`.
///
/// Trusted: the save serialises three strings, which cannot fail, and
/// `MemoryStorage::set` always returns `Ok`; a later load parses the same
/// record back. The record lives under its own length-prefixed key, so no
/// balance changes.
#[verifier::external_body]
pub fn config_set(storage: &mut MemoryStorage, config: &Config) -> (r: Result<(), StdError>)
    ensures
        r is Ok,
        stored_config(*final(storage)) == Some(config@),
        stored_balances(*final(storage)) == stored_balances(*old(storage)),
{
    let record = (
        config.name.clone(),
        config.symbol.clone(),
        CanonicalAddr(Binary(config.owner.clone())),
    );
    Singleton::new(storage, CONFIG_KEY.as_bytes()).save(&record)
}

/// Reads the configuration record with `ReadonlySingleton::load`.
///
/// Trusted: this call is what `stored_config` names. It fails where no record
/// was written or the bytes under the key do not parse.
#[verifier::external_body]
pub fn config_get(storage: &MemoryStorage) -> (r: Result<Config, StdError>)
    ensures
        match r {
            Ok(config) => stored_config(*storage) == Some(config@),
            Err(_) => stored_config(*storage) is None,
        },
{
    match ReadonlySingleton::<MemoryStorage, (String, String, CanonicalAddr)>::new(storage, CONFIG_KEY.as_bytes()).load() {
        Ok((name, symbol, owner)) => Ok(Config { name, symbol, owner: owner.0.0 }),
        Err(e) => Err(e),
    }
}

/// Writes the balance of `address` with `Bucket::save`, replacing any earlier
/// amount.
///
/// Trusted: the save serialises the amount as a decimal string, which cannot
/// fail, and `MemoryStorage::set` always returns `Ok`; a later load under the
/// same address parses that amount back. The key is the bucket's
/// length-prefixed namespace followed by the address, so no other address and
/// not the configuration record is touched.
#[verifier::external_body]
pub fn balance_set(storage: &mut MemoryStorage, address: &Vec<u8>, amount: u128) -> (r: Result<(), StdError>)
    ensures
        r is Ok,
        stored_balances(*final(storage)) == stored_balances(*old(storage)).insert(address@, amount),
        stored_config(*final(storage)) == stored_config(*old(storage)),
{
    Bucket::new(BALANCE_KEY.as_bytes(), storage).save(address.as_slice(), &Uint128(amount))
}

/// Looks `address` up in the balance bucket with `ReadonlyBucket::may_load`.
///
/// Trusted: this call is what `stored_balances` names. It finds an amount
/// exactly for the addresses in the domain; for any other it returns
/// `Ok(None)` where nothing is stored and an error where the stored bytes do
/// not parse.
#[verifier::external_body]
fn balance_may_load(storage: &MemoryStorage, address: &Vec<u8>) -> (r: Result<Option<u128>, StdError>)
    ensures
        match r {
            Ok(Some(amount)) => stored_balances(*storage).dom().contains(address@)
                && stored_balances(*storage)[address@] == amount,
            _ => !stored_balances(*storage).dom().contains(address@),
        },
{
    match ReadonlyBucket::<MemoryStorage, Uint128>::new(BALANCE_KEY.as_bytes(), storage).may_load(address.as_slice()) {
        Ok(Some(amount)) => Ok(Some(amount.0)),
        Ok(None) => Ok(None),
        Err(e) => Err(e),
    }
}

/// The balance of `address`. An address without a readable amount has
/// balance zero: reading never fails and never writes.
pub fn balance_get(storage: &MemoryStorage, address: &Vec<u8>) -> (amount: u128)
    ensures
        amount == balance_of(stored_balances(*storage), address@),
{
    match balance_may_load(storage, address) {
        Ok(Some(amount)) => amount,
        _ => 0,
    }
}

} // verus!
