//! Field resolution: amounts against a queried bound, account identifiers
//! against the query service, offline acceptance.

use near_cli::account::{AccountDirectory, AccountId, is_64_len_hex};
use near_cli::balance::NearBalance;
use near_cli::context::ConnectionConfig;
use near_cli::resolver::{resolve_account_id, resolve_amount, ResolveError};

fn bal(y: u128) -> NearBalance {
    NearBalance::from_yoctonear(y)
}

#[test]
fn amount_within_bound_is_accepted_unchanged() {
    let r = resolve_amount(Some(bal(5)), Some(bal(10)), &vec![]);
    assert_eq!(r.unwrap().to_yoctonear(), 5);
}

#[test]
fn amount_over_bound_falls_to_answers() {
    let answers = vec![bal(12), bal(9), bal(3)];
    let r = resolve_amount(Some(bal(15)), Some(bal(10)), &answers);
    assert_eq!(r.unwrap().to_yoctonear(), 9);
}

#[test]
fn amount_over_bound_without_answers_fails() {
    let r = resolve_amount(Some(bal(15)), Some(bal(10)), &vec![]);
    assert_eq!(r.unwrap_err(), ResolveError::ValidationExhausted);
}

#[test]
fn amount_without_bound_is_accepted_as_is() {
    let r = resolve_amount(Some(bal(15)), None, &vec![]);
    assert_eq!(r.unwrap().to_yoctonear(), 15);
}

#[test]
fn missing_amount_takes_first_answer() {
    let r = resolve_amount(None, Some(bal(10)), &vec![bal(4)]);
    assert_eq!(r.unwrap().to_yoctonear(), 4);
}

fn directory() -> AccountDirectory {
    let mut dir = AccountDirectory::new();
    dir.add("alice.test".to_string(), 10);
    dir.add("bob.test".to_string(), 0);
    dir
}

#[test]
fn known_account_is_accepted_online() {
    let dir = directory();
    let conn = Some(ConnectionConfig::Testnet);
    let r = resolve_account_id(
        Some(AccountId("alice.test".to_string())),
        &conn,
        &dir,
        vec![],
        false,
    );
    assert_eq!(r.unwrap().0, "alice.test");
}

#[test]
fn unknown_account_falls_to_answers_online() {
    let dir = directory();
    let conn = Some(ConnectionConfig::Testnet);
    let answers = vec![
        AccountId("nobody.test".to_string()),
        AccountId("bob.test".to_string()),
    ];
    let r = resolve_account_id(
        Some(AccountId("ghost.test".to_string())),
        &conn,
        &dir,
        answers,
        false,
    );
    assert_eq!(r.unwrap().0, "bob.test");
}

#[test]
fn unknown_account_without_answers_fails_online() {
    let dir = directory();
    let conn = Some(ConnectionConfig::Testnet);
    let r = resolve_account_id(
        Some(AccountId("ghost.test".to_string())),
        &conn,
        &dir,
        vec![],
        false,
    );
    assert_eq!(r.unwrap_err(), ResolveError::ValidationExhausted);
}

#[test]
fn offline_accepts_any_identifier_as_is() {
    let dir = AccountDirectory::new();
    let conn: Option<ConnectionConfig> = None;
    let r = resolve_account_id(
        Some(AccountId("anything at all!!".to_string())),
        &conn,
        &dir,
        vec![],
        false,
    );
    assert_eq!(r.unwrap().0, "anything at all!!");
}

#[test]
fn implicit_hex_identifier_passes_where_allowed() {
    let dir = directory();
    let conn = Some(ConnectionConfig::Testnet);
    let hex = "a".repeat(64);
    assert!(is_64_len_hex(&hex));
    let r = resolve_account_id(Some(AccountId(hex.clone())), &conn, &dir, vec![], true);
    assert_eq!(r.unwrap().0, hex);
    let r2 = resolve_account_id(Some(AccountId(hex)), &conn, &dir, vec![], false);
    assert!(r2.is_err());
}

#[test]
fn hex_check_wants_exactly_64_lower_hex_digits() {
    assert!(is_64_len_hex(&"0123456789abcdef".repeat(4)));
    assert!(!is_64_len_hex(&"0123456789ABCDEF".repeat(4)));
    assert!(!is_64_len_hex(&"a".repeat(63)));
    assert!(!is_64_len_hex(&"g".repeat(64)));
}
