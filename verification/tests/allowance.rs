use escrow_ledger::allowance::{read_allowance, spend_allowance};
use escrow_ledger::contract::Token;
use escrow_ledger::errors::Error;

const OWNER: u64 = 10;
const SPENDER: u64 = 20;

fn fresh_token() -> Token {
    let mut token = Token::new();
    token
        .initialize(1, 7, String::from("name"), String::from("symbol"))
        .unwrap();
    token
}

#[test]
fn allowance_expires_lazily() {
    let mut token = fresh_token();

    // approve 100 with expiration tick 50
    token.approve(OWNER, SPENDER, 100, 50, 0, true).unwrap();

    // at tick 49 the allowance can be spent up to 100
    assert_eq!(token.allowance(OWNER, SPENDER, 49), 100);
    spend_allowance(&mut token, OWNER, SPENDER, 100, 49).unwrap();
    assert_eq!(token.allowance(OWNER, SPENDER, 49), 0);

    // approve again; at tick 51 the effective allowance reads zero and
    // any positive spend fails
    token.approve(OWNER, SPENDER, 100, 50, 0, true).unwrap();
    assert_eq!(token.allowance(OWNER, SPENDER, 50), 100);
    assert_eq!(token.allowance(OWNER, SPENDER, 51), 0);
    assert_eq!(
        spend_allowance(&mut token, OWNER, SPENDER, 1, 51),
        Err(Error::InsufficientAllowance)
    );
}

#[test]
fn expired_transfer_from_is_refused() {
    let mut token = fresh_token();
    token.mint(OWNER, 1000, true).unwrap();
    token.approve(OWNER, SPENDER, 100, 50, 0, true).unwrap();

    assert_eq!(
        token.transfer_from(SPENDER, OWNER, 30, 1, 51, true),
        Err(Error::InsufficientAllowance)
    );
    assert_eq!(token.balance(OWNER), 1000);
}

#[test]
fn approve_overwrites() {
    let mut token = fresh_token();
    token.approve(OWNER, SPENDER, 100, 50, 0, true).unwrap();
    token.approve(OWNER, SPENDER, 40, 60, 0, true).unwrap();
    assert_eq!(token.allowance(OWNER, SPENDER, 0), 40);
    assert_eq!(token.allowance(OWNER, SPENDER, 60), 40);
    assert_eq!(token.allowance(OWNER, SPENDER, 61), 0);
}

#[test]
fn approve_rejects_past_expiration() {
    let mut token = fresh_token();
    assert_eq!(
        token.approve(OWNER, SPENDER, 5, 1, 10, true),
        Err(Error::InvalidExpiration)
    );
    // a zero amount may carry any expiration tick
    token.approve(OWNER, SPENDER, 0, 1, 10, true).unwrap();
    assert_eq!(token.allowance(OWNER, SPENDER, 10), 0);
}

#[test]
fn spending_keeps_expiration() {
    let mut token = fresh_token();
    token.approve(OWNER, SPENDER, 100, 50, 0, true).unwrap();
    spend_allowance(&mut token, OWNER, SPENDER, 60, 10).unwrap();
    let record = read_allowance(&token, OWNER, SPENDER, 10);
    assert_eq!(record.amount, 40);
    assert_eq!(record.expiration_ledger, 50);
    // past the kept expiration the remainder reads zero
    assert_eq!(token.allowance(OWNER, SPENDER, 51), 0);
}

#[test]
fn increase_allowance_overflow() {
    let mut token = fresh_token();
    token
        .increase_allowance(OWNER, SPENDER, i128::MAX, 0, true)
        .unwrap();
    assert_eq!(
        token.increase_allowance(OWNER, SPENDER, 1, 0, true),
        Err(Error::Overflow)
    );
    assert_eq!(token.allowance(OWNER, SPENDER, 0), i128::MAX);
}

#[test]
fn decrease_allowance_clamps_at_zero() {
    let mut token = fresh_token();
    token.increase_allowance(OWNER, SPENDER, 10, 0, true).unwrap();
    token.decrease_allowance(OWNER, SPENDER, 4, 0, true).unwrap();
    assert_eq!(token.allowance(OWNER, SPENDER, 0), 6);
    token.decrease_allowance(OWNER, SPENDER, 100, 0, true).unwrap();
    assert_eq!(token.allowance(OWNER, SPENDER, 0), 0);
}
