use escrow_ledger::admin::{has_administrator, read_administrator};
use escrow_ledger::contract::Token;
use escrow_ledger::errors::Error;

fn fresh_token(admin: u64) -> Token {
    let mut token = Token::new();
    token
        .initialize(admin, 7, String::from("name"), String::from("symbol"))
        .unwrap();
    token
}

#[test]
fn test() {
    let admin1: u64 = 1;
    let admin2: u64 = 2;
    let user1: u64 = 10;
    let user2: u64 = 20;
    let user3: u64 = 30;
    let mut token = fresh_token(admin1);

    token.mint(user1, 1000, true).unwrap();
    assert_eq!(token.balance(user1), 1000);

    token.increase_allowance(user2, user3, 500, 0, true).unwrap();
    assert_eq!(token.allowance(user2, user3, 0), 500);

    token.transfer(user1, user2, 600, true).unwrap();
    assert_eq!(token.balance(user1), 400);
    assert_eq!(token.balance(user2), 600);

    token.transfer_from(user3, user2, user1, 400, 0, true).unwrap();
    assert_eq!(token.balance(user1), 800);
    assert_eq!(token.balance(user2), 200);

    token.transfer(user1, user3, 300, true).unwrap();
    assert_eq!(token.balance(user1), 500);
    assert_eq!(token.balance(user3), 300);

    token.set_admin(admin2, true).unwrap();

    token.set_authorized(user2, false, true).unwrap();
    assert_eq!(token.authorized(user2), false);

    token.set_authorized(user3, true, true).unwrap();
    assert_eq!(token.authorized(user3), true);

    token.clawback(user3, 100, true).unwrap();
    assert_eq!(token.balance(user3), 200);

    // Increase by 400, with an existing 100 = 500
    token.increase_allowance(user2, user3, 400, 0, true).unwrap();
    assert_eq!(token.allowance(user2, user3, 0), 500);
    token.decrease_allowance(user2, user3, 501, 0, true).unwrap();
    assert_eq!(token.allowance(user2, user3, 0), 0);
}

#[test]
fn test_burn() {
    let admin: u64 = 1;
    let user1: u64 = 10;
    let user2: u64 = 20;
    let mut token = fresh_token(admin);

    token.mint(user1, 1000, true).unwrap();
    assert_eq!(token.balance(user1), 1000);

    token.increase_allowance(user1, user2, 500, 0, true).unwrap();
    assert_eq!(token.allowance(user1, user2, 0), 500);

    token.burn_from(user2, user1, 500, 0, true).unwrap();
    assert_eq!(token.allowance(user1, user2, 0), 0);
    assert_eq!(token.balance(user1), 500);
    assert_eq!(token.balance(user2), 0);

    token.burn(user1, 500, true).unwrap();
    assert_eq!(token.balance(user1), 0);
    assert_eq!(token.balance(user2), 0);
}

#[test]
fn test_test() {
    let admin1: u64 = 1;
    let admin2: u64 = 2;
    let user1: u64 = 10;
    let user2: u64 = 20;
    let user3: u64 = 30;
    let mut token = fresh_token(admin1);

    token.mint(user1, 1000, true).unwrap();
    assert_eq!(token.balance(user1), 1000);

    token.increase_allowance(user2, user3, 500, 0, true).unwrap();
    assert_eq!(token.allowance(user2, user3, 0), 500);

    token.transfer(user1, user2, 600, true).unwrap();
    assert_eq!(token.balance(user1), 400);
    assert_eq!(token.balance(user2), 600);

    token.transfer_from(user3, user2, user1, 400, 0, true).unwrap();
    assert_eq!(token.balance(user1), 800);
    assert_eq!(token.balance(user2), 200);

    token.transfer(user1, user3, 300, true).unwrap();
    assert_eq!(token.balance(user1), 500);
    assert_eq!(token.balance(user3), 300);

    token.set_admin(admin2, true).unwrap();

    token.set_authorized(user2, false, true).unwrap();
    assert_eq!(token.authorized(user2), false);

    token.set_authorized(user3, true, true).unwrap();
    assert_eq!(token.authorized(user3), true);

    token.clawback(user3, 100, true).unwrap();
    assert_eq!(token.balance(user3), 200);

    token.increase_allowance(user2, user3, 400, 0, true).unwrap();
    assert_eq!(token.allowance(user2, user3, 0), 500);
    token.decrease_allowance(user2, user3, 501, 0, true).unwrap();
    assert_eq!(token.allowance(user2, user3, 0), 0);
}

#[test]
fn test_test_burn() {
    let admin: u64 = 1;
    let user1: u64 = 10;
    let user2: u64 = 20;
    let mut token = fresh_token(admin);

    token.mint(user1, 1000, true).unwrap();
    assert_eq!(token.balance(user1), 1000);

    token.increase_allowance(user1, user2, 500, 0, true).unwrap();
    assert_eq!(token.allowance(user1, user2, 0), 500);

    token.burn_from(user2, user1, 500, 0, true).unwrap();
    assert_eq!(token.allowance(user1, user2, 0), 0);
    assert_eq!(token.balance(user1), 500);
    assert_eq!(token.balance(user2), 0);

    token.burn(user1, 500, true).unwrap();
    assert_eq!(token.balance(user1), 0);
    assert_eq!(token.balance(user2), 0);
}

#[test]
fn transfer_insufficient_balance() {
    let mut token = fresh_token(1);
    token.mint(10, 1000, true).unwrap();
    assert_eq!(token.balance(10), 1000);

    assert_eq!(
        token.transfer(10, 20, 1001, true),
        Err(Error::InsufficientBalance)
    );
    assert_eq!(token.balance(10), 1000);
    assert_eq!(token.balance(20), 0);
}

#[test]
fn transfer_receive_deauthorized() {
    let mut token = fresh_token(1);
    token.mint(10, 1000, true).unwrap();
    assert_eq!(token.balance(10), 1000);

    token.set_authorized(20, false, true).unwrap();
    assert_eq!(token.transfer(10, 20, 1, true), Err(Error::Deauthorized));
    assert_eq!(token.balance(10), 1000);
    assert_eq!(token.balance(20), 0);
}

#[test]
fn transfer_spend_deauthorized() {
    let mut token = fresh_token(1);
    token.mint(10, 1000, true).unwrap();
    assert_eq!(token.balance(10), 1000);

    token.set_authorized(10, false, true).unwrap();
    assert_eq!(token.transfer(10, 20, 1, true), Err(Error::Deauthorized));
    assert_eq!(token.balance(10), 1000);
}

#[test]
fn transfer_from_insufficient_allowance() {
    let mut token = fresh_token(1);
    token.mint(10, 1000, true).unwrap();
    assert_eq!(token.balance(10), 1000);

    token.increase_allowance(10, 30, 100, 0, true).unwrap();
    assert_eq!(token.allowance(10, 30, 0), 100);

    assert_eq!(
        token.transfer_from(30, 10, 20, 101, 0, true),
        Err(Error::InsufficientAllowance)
    );
    assert_eq!(token.balance(10), 1000);
    assert_eq!(token.balance(20), 0);
}

#[test]
fn initialize_already_initialized() {
    let mut token = fresh_token(1);
    assert_eq!(
        token.initialize(1, 10, String::from("name"), String::from("symbol")),
        Err(Error::AlreadyInitialized)
    );
}

#[test]
fn decimal_is_over_max() {
    let mut token = Token::new();
    assert_eq!(
        token.initialize(
            1,
            u32::from(u8::MAX) + 1,
            String::from("name"),
            String::from("symbol")
        ),
        Err(Error::InvalidDecimal)
    );
}

#[test]
fn metadata_is_stored() {
    let token = fresh_token(1);
    assert_eq!(token.decimals(), 7);
    assert_eq!(token.name(), String::from("name"));
    assert_eq!(token.symbol(), String::from("symbol"));
}

#[test]
fn transfer_unauthorized() {
    let mut token = fresh_token(1);
    token.mint(10, 100, true).unwrap();
    assert_eq!(token.transfer(10, 20, 50, false), Err(Error::Unauthorized));
    assert_eq!(token.balance(10), 100);
}

#[test]
fn transfer_negative_amount() {
    let mut token = fresh_token(1);
    token.mint(10, 100, true).unwrap();
    assert_eq!(token.transfer(10, 20, -1, true), Err(Error::InvalidAmount));
    assert_eq!(token.balance(10), 100);
}

#[test]
fn mint_not_initialized() {
    let mut token = Token::new();
    assert_eq!(token.mint(10, 100, true), Err(Error::NotInitialized));
    assert_eq!(token.balance(10), 0);
}

#[test]
fn mint_unauthorized() {
    let mut token = fresh_token(1);
    assert_eq!(token.mint(10, 100, false), Err(Error::Unauthorized));
    assert_eq!(token.balance(10), 0);
}

#[test]
fn mint_overflow() {
    let mut token = fresh_token(1);
    token.mint(10, i128::MAX, true).unwrap();
    assert_eq!(token.mint(10, 1, true), Err(Error::Overflow));
    assert_eq!(token.balance(10), i128::MAX);
}

#[test]
fn deauthorized_balance_is_kept() {
    let mut token = fresh_token(1);
    token.mint(10, 250, true).unwrap();
    token.set_authorized(10, false, true).unwrap();
    assert_eq!(token.balance(10), 250);
    token.set_authorized(10, true, true).unwrap();
    token.transfer(10, 20, 250, true).unwrap();
    assert_eq!(token.balance(20), 250);
}

#[test]
fn administrator_record() {
    let mut token = Token::new();
    assert!(!has_administrator(&token));
    token
        .initialize(1, 7, String::from("name"), String::from("symbol"))
        .unwrap();
    assert!(has_administrator(&token));
    assert_eq!(read_administrator(&token), 1);
    token.set_admin(2, true).unwrap();
    assert_eq!(read_administrator(&token), 2);
    assert_eq!(token.set_admin(3, false), Err(Error::Unauthorized));
    assert_eq!(read_administrator(&token), 2);
}

#[test]
fn spendable_balance_equals_balance() {
    let mut token = fresh_token(1);
    token.mint(10, 77, true).unwrap();
    assert_eq!(token.spendable_balance(10), 77);
    assert_eq!(token.spendable_balance(10), token.balance(10));
}
