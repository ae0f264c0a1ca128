use cosmwasm_std::MemoryStorage;
use token_ledger::contract::{handle, init, query, try_burn, try_transfer};
use token_ledger::error::LedgerError;
use token_ledger::msg::{
    AuditRecord, BalanceResponse, ConfigResponse, HandleMsg, InitMsg, InitialBalance, QueryMsg,
    QueryResponse,
};
use token_ledger::state::{balance_get, balance_set, config_get, config_set, Config};

fn addr(name: &str) -> Vec<u8> {
    name.as_bytes().to_vec()
}

fn row(name: &str, amount: u128) -> InitialBalance {
    InitialBalance { address: addr(name), amount }
}

fn seeded_storage(rows: Vec<InitialBalance>) -> MemoryStorage {
    let mut storage = MemoryStorage::new();
    let msg = InitMsg { name: "Tok".to_string(), symbol: "TOK".to_string(), initial_balances: rows };
    assert_eq!(init(&mut storage, addr("deployer"), msg), Ok(()));
    storage
}

fn balance(storage: &MemoryStorage, name: &str) -> u128 {
    match query(storage, QueryMsg::Balance { address: addr(name) }) {
        Ok(QueryResponse::Balance(BalanceResponse { balance })) => balance,
        other => panic!("unexpected answer: {:?}", other),
    }
}

#[test]
fn scenario_init_transfer_burn_and_refusal() {
    let mut storage = seeded_storage(vec![row("alice", 100), row("bob", 0)]);
    assert_eq!(
        query(&storage, QueryMsg::Config {}),
        Ok(QueryResponse::Config(ConfigResponse {
            name: "Tok".to_string(),
            symbol: "TOK".to_string(),
            owner: addr("deployer"),
        }))
    );

    let moved = handle(
        &mut storage,
        &addr("alice"),
        HandleMsg::Transfer { recipient: addr("bob"), amount: 30 },
    );
    assert_eq!(
        moved,
        Ok(AuditRecord::Transfer { sender: addr("alice"), recipient: addr("bob"), amount: 30 })
    );
    assert_eq!(balance(&storage, "alice"), 70);
    assert_eq!(balance(&storage, "bob"), 30);

    let burned = handle(&mut storage, &addr("bob"), HandleMsg::Burn { amount: 30 });
    assert_eq!(burned, Ok(AuditRecord::Burn { sender: addr("bob"), amount: 30 }));
    assert_eq!(balance(&storage, "bob"), 0);

    let refused = handle(
        &mut storage,
        &addr("alice"),
        HandleMsg::Transfer { recipient: addr("bob"), amount: 1000 },
    );
    assert_eq!(refused, Err(LedgerError::InsufficientFunds { balance: 70, required: 1000 }));
    assert_eq!(balance(&storage, "alice"), 70);
    assert_eq!(balance(&storage, "bob"), 0);
}

#[test]
fn transfer_between_accounts_conserves_their_sum() {
    let mut storage = seeded_storage(vec![row("a", 500), row("b", 7), row("c", 11)]);
    let r = try_transfer(&mut storage, &addr("a"), &addr("b"), 120);
    assert_eq!(r, Ok(AuditRecord::Transfer { sender: addr("a"), recipient: addr("b"), amount: 120 }));
    assert_eq!(balance(&storage, "a"), 380);
    assert_eq!(balance(&storage, "b"), 127);
    assert_eq!(balance(&storage, "a") + balance(&storage, "b"), 507);
    assert_eq!(balance(&storage, "c"), 11);
}

#[test]
fn transfer_of_whole_balance_leaves_zero() {
    let mut storage = seeded_storage(vec![row("a", 42)]);
    assert!(try_transfer(&mut storage, &addr("a"), &addr("new"), 42).is_ok());
    assert_eq!(balance(&storage, "a"), 0);
    assert_eq!(balance(&storage, "new"), 42);
}

#[test]
fn transfer_of_zero_succeeds_from_an_unknown_account() {
    let mut storage = MemoryStorage::new();
    let r = try_transfer(&mut storage, &addr("ghost"), &addr("b"), 0);
    assert_eq!(r, Ok(AuditRecord::Transfer { sender: addr("ghost"), recipient: addr("b"), amount: 0 }));
    assert_eq!(balance(&storage, "ghost"), 0);
    assert_eq!(balance(&storage, "b"), 0);
}

#[test]
fn transfer_to_self_leaves_balance_unchanged() {
    let mut storage = seeded_storage(vec![row("a", 100), row("b", 5)]);
    let r = try_transfer(&mut storage, &addr("a"), &addr("a"), 60);
    assert_eq!(r, Ok(AuditRecord::Transfer { sender: addr("a"), recipient: addr("a"), amount: 60 }));
    assert_eq!(balance(&storage, "a"), 100);
    assert_eq!(balance(&storage, "b"), 5);
}

#[test]
fn transfer_to_self_at_the_maximum_does_not_overflow() {
    let mut storage = seeded_storage(vec![row("a", u128::MAX)]);
    assert!(try_transfer(&mut storage, &addr("a"), &addr("a"), u128::MAX).is_ok());
    assert_eq!(balance(&storage, "a"), u128::MAX);
    assert!(try_transfer(&mut storage, &addr("a"), &addr("a"), 1).is_ok());
    assert_eq!(balance(&storage, "a"), u128::MAX);
}

#[test]
fn transfer_to_self_beyond_balance_is_refused() {
    let mut storage = seeded_storage(vec![row("a", 10)]);
    let r = try_transfer(&mut storage, &addr("a"), &addr("a"), 11);
    assert_eq!(r, Err(LedgerError::InsufficientFunds { balance: 10, required: 11 }));
    assert_eq!(balance(&storage, "a"), 10);
}

#[test]
fn transfer_beyond_balance_is_refused_and_changes_nothing() {
    let mut storage = seeded_storage(vec![row("a", 10), row("b", 3)]);
    let r = try_transfer(&mut storage, &addr("a"), &addr("b"), 11);
    assert_eq!(r, Err(LedgerError::InsufficientFunds { balance: 10, required: 11 }));
    assert_eq!(balance(&storage, "a"), 10);
    assert_eq!(balance(&storage, "b"), 3);
}

#[test]
fn transfer_from_unknown_account_reports_zero_balance() {
    let mut storage = seeded_storage(vec![row("b", 3)]);
    let r = try_transfer(&mut storage, &addr("nobody"), &addr("b"), 1);
    assert_eq!(r, Err(LedgerError::InsufficientFunds { balance: 0, required: 1 }));
    assert_eq!(balance(&storage, "b"), 3);
}

#[test]
fn transfer_that_would_overflow_the_recipient_is_refused() {
    let mut storage = seeded_storage(vec![row("a", 10), row("rich", u128::MAX - 4)]);
    let r = try_transfer(&mut storage, &addr("a"), &addr("rich"), 5);
    assert_eq!(r, Err(LedgerError::Overflow));
    assert_eq!(balance(&storage, "a"), 10);
    assert_eq!(balance(&storage, "rich"), u128::MAX - 4);
    assert!(try_transfer(&mut storage, &addr("a"), &addr("rich"), 4).is_ok());
    assert_eq!(balance(&storage, "a"), 6);
    assert_eq!(balance(&storage, "rich"), u128::MAX);
}

#[test]
fn insufficient_funds_is_checked_before_overflow() {
    let mut storage = seeded_storage(vec![row("a", 1), row("rich", u128::MAX)]);
    let r = try_transfer(&mut storage, &addr("a"), &addr("rich"), 2);
    assert_eq!(r, Err(LedgerError::InsufficientFunds { balance: 1, required: 2 }));
}

#[test]
fn burn_reduces_only_the_sender() {
    let mut storage = seeded_storage(vec![row("a", 100), row("b", 9)]);
    let r = try_burn(&mut storage, &addr("a"), 33);
    assert_eq!(r, Ok(AuditRecord::Burn { sender: addr("a"), amount: 33 }));
    assert_eq!(balance(&storage, "a"), 67);
    assert_eq!(balance(&storage, "b"), 9);
}

#[test]
fn burn_of_whole_balance_and_of_zero() {
    let mut storage = seeded_storage(vec![row("a", 5)]);
    assert!(try_burn(&mut storage, &addr("a"), 0).is_ok());
    assert_eq!(balance(&storage, "a"), 5);
    assert!(try_burn(&mut storage, &addr("a"), 5).is_ok());
    assert_eq!(balance(&storage, "a"), 0);
    assert!(try_burn(&mut storage, &addr("a"), 0).is_ok());
    assert_eq!(balance(&storage, "a"), 0);
}

#[test]
fn burn_beyond_balance_is_refused_and_changes_nothing() {
    let mut storage = seeded_storage(vec![row("a", 5), row("b", 9)]);
    let r = try_burn(&mut storage, &addr("a"), 6);
    assert_eq!(r, Err(LedgerError::InsufficientFunds { balance: 5, required: 6 }));
    assert_eq!(balance(&storage, "a"), 5);
    assert_eq!(balance(&storage, "b"), 9);
}

#[test]
fn successive_burns_never_raise_the_balance() {
    let mut storage = seeded_storage(vec![row("a", 10)]);
    let mut last: u128 = balance(&storage, "a");
    for amount in [3u128, 0, 4, 100, 3] {
        let _ = try_burn(&mut storage, &addr("a"), amount);
        let now = balance(&storage, "a");
        assert!(now <= last);
        last = now;
    }
    assert_eq!(last, 0);
}

#[test]
fn balance_of_unwritten_address_is_zero() {
    let empty = MemoryStorage::new();
    assert_eq!(
        query(&empty, QueryMsg::Balance { address: addr("nobody") }),
        Ok(QueryResponse::Balance(BalanceResponse { balance: 0 }))
    );
    assert_eq!(balance_get(&empty, &addr("nobody")), 0);
    let storage = seeded_storage(vec![row("a", 1)]);
    assert_eq!(balance(&storage, "nobody"), 0);
    assert_eq!(balance(&storage, ""), 0);
}

#[test]
fn query_does_not_create_balances() {
    let storage = MemoryStorage::new();
    let _ = query(&storage, QueryMsg::Balance { address: addr("a") });
    assert_eq!(balance_get(&storage, &addr("a")), 0);
    assert_eq!(query(&storage, QueryMsg::Config {}), Err(LedgerError::NotInitialized));
}

#[test]
fn query_config_before_init_is_not_initialized() {
    let mut storage = MemoryStorage::new();
    assert_eq!(query(&storage, QueryMsg::Config {}), Err(LedgerError::NotInitialized));
    assert!(config_get(&storage).is_err());
    assert!(balance_set(&mut storage, &addr("a"), 1).is_ok());
    assert_eq!(query(&storage, QueryMsg::Config {}), Err(LedgerError::NotInitialized));
}

#[test]
fn repeated_queries_give_identical_answers() {
    let storage = seeded_storage(vec![row("a", 77)]);
    let first = query(&storage, QueryMsg::Balance { address: addr("a") });
    for _ in 0..5 {
        assert_eq!(query(&storage, QueryMsg::Balance { address: addr("a") }), first);
    }
    let config = query(&storage, QueryMsg::Config {});
    assert!(config.is_ok());
    for _ in 0..5 {
        assert_eq!(query(&storage, QueryMsg::Config {}), config);
    }
}

#[test]
fn init_with_duplicate_rows_keeps_the_last() {
    let storage = seeded_storage(vec![row("a", 5), row("b", 1), row("a", 9), row("b", 0)]);
    assert_eq!(balance(&storage, "a"), 9);
    assert_eq!(balance(&storage, "b"), 0);
}

#[test]
fn init_without_rows_writes_only_the_config() {
    let storage = seeded_storage(vec![]);
    assert_eq!(balance(&storage, "deployer"), 0);
    assert_eq!(
        config_get(&storage).ok(),
        Some(Config { name: "Tok".to_string(), symbol: "TOK".to_string(), owner: addr("deployer") })
    );
}

#[test]
fn init_accepts_the_largest_amount() {
    let storage = seeded_storage(vec![row("a", u128::MAX)]);
    assert_eq!(balance(&storage, "a"), u128::MAX);
}

#[test]
fn second_init_overwrites_config_and_named_rows() {
    let mut storage = seeded_storage(vec![row("a", 5), row("b", 6)]);
    let again = InitMsg {
        name: "Other".to_string(),
        symbol: "OTH".to_string(),
        initial_balances: vec![row("a", 1)],
    };
    assert_eq!(init(&mut storage, addr("someone"), again), Ok(()));
    assert_eq!(balance(&storage, "a"), 1);
    assert_eq!(balance(&storage, "b"), 6);
    assert_eq!(
        query(&storage, QueryMsg::Config {}),
        Ok(QueryResponse::Config(ConfigResponse {
            name: "Other".to_string(),
            symbol: "OTH".to_string(),
            owner: addr("someone"),
        }))
    );
}

#[test]
fn balance_set_then_get_returns_the_amount() {
    let mut storage = MemoryStorage::new();
    assert!(balance_set(&mut storage, &addr("a"), 12345678901234567890123456789).is_ok());
    assert_eq!(balance_get(&storage, &addr("a")), 12345678901234567890123456789);
    assert!(balance_set(&mut storage, &addr("a"), 7).is_ok());
    assert_eq!(balance_get(&storage, &addr("a")), 7);
    assert_eq!(balance_get(&storage, &addr("b")), 0);
}

#[test]
fn balance_keys_are_told_apart_byte_for_byte() {
    let mut storage = MemoryStorage::new();
    assert!(balance_set(&mut storage, &vec![], 1).is_ok());
    assert!(balance_set(&mut storage, &vec![0], 2).is_ok());
    assert!(balance_set(&mut storage, &vec![0, 0], 3).is_ok());
    assert!(balance_set(&mut storage, &vec![255, 34, 92], 4).is_ok());
    assert_eq!(balance_get(&storage, &vec![]), 1);
    assert_eq!(balance_get(&storage, &vec![0]), 2);
    assert_eq!(balance_get(&storage, &vec![0, 0]), 3);
    assert_eq!(balance_get(&storage, &vec![255, 34, 92]), 4);
    assert_eq!(balance_get(&storage, &vec![255, 34]), 0);
}

#[test]
fn config_set_then_get_returns_the_record() {
    let mut storage = MemoryStorage::new();
    let config = Config {
        name: "A \"quoted\" \\ name\n\twith\u{0001}controls".to_string(),
        symbol: "\u{20ac}\u{1f600}".to_string(),
        owner: vec![0, 1, 2, 253, 254, 255],
    };
    assert!(config_set(&mut storage, &config).is_ok());
    assert_eq!(config_get(&storage).ok(), Some(config));
    let empty = Config { name: String::new(), symbol: String::new(), owner: vec![] };
    assert!(config_set(&mut storage, &empty).is_ok());
    assert_eq!(config_get(&storage).ok(), Some(empty));
}

#[test]
fn the_two_stores_do_not_touch_each_other() {
    let mut storage = MemoryStorage::new();
    assert!(balance_set(&mut storage, &addr("config"), 5).is_ok());
    assert!(balance_set(&mut storage, &addr(""), 6).is_ok());
    assert!(config_get(&storage).is_err());
    let config = Config { name: "n".to_string(), symbol: "s".to_string(), owner: addr("o") };
    assert!(config_set(&mut storage, &config).is_ok());
    assert_eq!(balance_get(&storage, &addr("config")), 5);
    assert_eq!(balance_get(&storage, &addr("")), 6);
    assert!(balance_set(&mut storage, &addr("config"), 8).is_ok());
    assert_eq!(config_get(&storage).ok(), Some(config));
}

#[test]
fn handle_leaves_the_config_alone() {
    let mut storage = seeded_storage(vec![row("a", 10)]);
    let before = config_get(&storage).ok();
    assert!(handle(&mut storage, &addr("a"), HandleMsg::Burn { amount: 1 }).is_ok());
    assert!(handle(
        &mut storage,
        &addr("a"),
        HandleMsg::Transfer { recipient: addr("b"), amount: 2 }
    )
    .is_ok());
    assert_eq!(config_get(&storage).ok(), before);
    assert_eq!(balance(&storage, "a"), 7);
    assert_eq!(balance(&storage, "b"), 2);
}

#[test]
fn handle_burn_beyond_balance_is_refused() {
    let mut storage = seeded_storage(vec![row("a", 10)]);
    let r = handle(&mut storage, &addr("a"), HandleMsg::Burn { amount: 11 });
    assert_eq!(r, Err(LedgerError::InsufficientFunds { balance: 10, required: 11 }));
    assert_eq!(balance(&storage, "a"), 10);
}

#[test]
fn transfers_keep_the_total_and_burns_lower_it() {
    let names = ["a", "b", "c"];
    let mut storage = seeded_storage(vec![row("a", 50), row("b", 20), row("c", 30)]);
    let total = |s: &MemoryStorage| -> u128 { names.iter().map(|n| balance(s, n)).sum() };
    assert_eq!(total(&storage), 100);
    assert!(try_transfer(&mut storage, &addr("a"), &addr("c"), 25).is_ok());
    assert!(try_transfer(&mut storage, &addr("c"), &addr("c"), 55).is_ok());
    assert!(try_transfer(&mut storage, &addr("b"), &addr("a"), 21).is_err());
    assert_eq!(total(&storage), 100);
    assert!(try_burn(&mut storage, &addr("c"), 40).is_ok());
    assert_eq!(total(&storage), 60);
    assert!(try_burn(&mut storage, &addr("c"), 40).is_err());
    assert_eq!(total(&storage), 60);
}
