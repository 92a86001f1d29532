use escrow_ledger::contract::Token;
use escrow_ledger::crowdfund::Crowdfund;
use escrow_ledger::errors::Error;
use escrow_ledger::events::CrowdfundEvent;

const ADMIN: u64 = 1;
const RECIPIENT: u64 = 5;
const USER1: u64 = 10;
const USER2: u64 = 20;
const ESCROW: u64 = 99;
const TOKEN_ID: u64 = 7;
const START: u64 = 100;
const DEADLINE: u64 = 110;

/// Sets up a crowdfund with -
/// 1. Deadline 10 ticks from the start.
/// 2. Target amount of 15.
/// 3. One deposit of 10 from the first user.
fn setup() -> (Token, Crowdfund) {
    let mut token = Token::new();
    token
        .initialize(ADMIN, 7, String::from("name"), String::from("symbol"))
        .unwrap();
    token.mint(USER1, 10, true).unwrap();
    token.mint(USER2, 8, true).unwrap();

    let mut crowdfund = Crowdfund::new(ESCROW);
    crowdfund
        .initialize(START, RECIPIENT, DEADLINE, 15, TOKEN_ID)
        .unwrap();
    crowdfund.deposit(&mut token, START, USER1, 10, true).unwrap();
    (token, crowdfund)
}

#[test]
fn test_expired() {
    let (mut token, mut crowdfund) = setup();

    crowdfund.withdraw(&mut token, DEADLINE + 1, USER1).unwrap();

    assert_eq!(token.balance(USER1), 10);
    assert_eq!(token.balance(ESCROW), 0);
}

#[test]
fn test_events() {
    let (mut token, mut crowdfund) = setup();
    crowdfund.deposit(&mut token, START, USER2, 5, true).unwrap();
    crowdfund.deposit(&mut token, START, USER2, 3, true).unwrap();

    let expected = vec![
        CrowdfundEvent::PledgedAmountChanged { total: 10 },
        CrowdfundEvent::PledgedAmountChanged { total: 15 },
        // this event is emitted only once: ensuing deposits over the
        // target before expiration do not trigger it again
        CrowdfundEvent::TargetReached {
            pledged: 15,
            target: 15,
        },
        CrowdfundEvent::PledgedAmountChanged { total: 18 },
    ];
    assert_eq!(crowdfund.events(), &expected);
}

#[test]
fn test_success() {
    let (mut token, mut crowdfund) = setup();
    crowdfund.deposit(&mut token, START, USER2, 5, true).unwrap();

    assert_eq!(token.balance(USER1), 0);
    assert_eq!(token.balance(USER2), 3);
    assert_eq!(token.balance(ESCROW), 15);

    crowdfund.withdraw(&mut token, DEADLINE, RECIPIENT).unwrap();

    assert_eq!(token.balance(USER1), 0);
    assert_eq!(token.balance(USER2), 3);
    assert_eq!(token.balance(ESCROW), 0);
    assert_eq!(token.balance(RECIPIENT), 15);
}

#[test]
fn sale_still_running() {
    let (mut token, mut crowdfund) = setup();
    assert_eq!(
        crowdfund.withdraw(&mut token, START, RECIPIENT),
        Err(Error::StillRunning)
    );
}

#[test]
fn sale_successful_only_recipient() {
    let (mut token, mut crowdfund) = setup();
    crowdfund.deposit(&mut token, START, USER2, 5, true).unwrap();

    assert_eq!(
        crowdfund.withdraw(&mut token, DEADLINE, USER1),
        Err(Error::OnlyRecipientMayWithdraw)
    );
}

#[test]
fn sale_successful_non_recipient_still_denied_after_withdrawal() {
    let (mut token, mut crowdfund) = setup();
    crowdfund.deposit(&mut token, START, USER2, 5, true).unwrap();

    crowdfund.withdraw(&mut token, DEADLINE, RECIPIENT).unwrap();
    assert_eq!(
        crowdfund.withdraw(&mut token, DEADLINE, USER1),
        Err(Error::OnlyRecipientMayWithdraw)
    );
}

#[test]
fn sale_successful_recipient_withdraws_only_once() {
    let (mut token, mut crowdfund) = setup();
    crowdfund.deposit(&mut token, START, USER2, 5, true).unwrap();

    crowdfund.withdraw(&mut token, DEADLINE, RECIPIENT).unwrap();
    assert_eq!(token.balance(RECIPIENT), 15);

    // the second attempt fails and leaves every balance unchanged
    assert_eq!(
        crowdfund.withdraw(&mut token, DEADLINE, RECIPIENT),
        Err(Error::AlreadyClaimed)
    );
    assert_eq!(token.balance(RECIPIENT), 15);
    assert_eq!(token.balance(ESCROW), 0);
}

#[test]
fn sale_expired_recipient_not_allowed() {
    let (mut token, mut crowdfund) = setup();

    crowdfund.withdraw(&mut token, DEADLINE, USER1).unwrap();
    assert_eq!(
        crowdfund.withdraw(&mut token, DEADLINE, RECIPIENT),
        Err(Error::RecipientMayNotWithdraw)
    );
}

#[test]
fn sale_not_running() {
    let (mut token, mut crowdfund) = setup();

    assert_eq!(
        crowdfund.deposit(&mut token, DEADLINE, USER1, 1, true),
        Err(Error::NotRunning)
    );
}

#[test]
fn refund_conservation() {
    // an expired escrow pays every depositor back exactly what they put in
    let mut token = Token::new();
    token
        .initialize(ADMIN, 7, String::from("name"), String::from("symbol"))
        .unwrap();
    token.mint(USER1, 10, true).unwrap();
    token.mint(USER2, 8, true).unwrap();

    let mut crowdfund = Crowdfund::new(ESCROW);
    crowdfund
        .initialize(START, RECIPIENT, DEADLINE, 100, TOKEN_ID)
        .unwrap();
    crowdfund.deposit(&mut token, START, USER1, 10, true).unwrap();
    crowdfund.deposit(&mut token, START, USER2, 5, true).unwrap();
    crowdfund.deposit(&mut token, START + 1, USER2, 3, true).unwrap();
    assert_eq!(token.balance(ESCROW), 18);

    assert_eq!(crowdfund.state(&token, DEADLINE), 2);
    crowdfund.withdraw(&mut token, DEADLINE, USER1).unwrap();
    crowdfund.withdraw(&mut token, DEADLINE, USER2).unwrap();

    assert_eq!(token.balance(USER1), 10);
    assert_eq!(token.balance(USER2), 8);
    assert_eq!(token.balance(ESCROW), 0);

    // a refunded depositor has nothing left to withdraw
    crowdfund.withdraw(&mut token, DEADLINE, USER1).unwrap();
    assert_eq!(token.balance(USER1), 10);
}

#[test]
fn phase_is_never_running_after_deadline() {
    let (mut token, mut crowdfund) = setup();
    assert_eq!(crowdfund.state(&token, START), 0);
    assert_eq!(crowdfund.state(&token, DEADLINE), 2);
    // a later deposit cannot revert the phase: it is rejected outright
    assert_eq!(
        crowdfund.deposit(&mut token, DEADLINE + 5, USER2, 5, true),
        Err(Error::NotRunning)
    );
    assert_eq!(crowdfund.state(&token, DEADLINE + 5), 2);
}

#[test]
fn state_reports_success_at_target() {
    let (mut token, mut crowdfund) = setup();
    assert_eq!(crowdfund.state(&token, START), 0);
    crowdfund.deposit(&mut token, START, USER2, 5, true).unwrap();
    // exactly at the target counts as reached, and exactly at the
    // deadline is no longer running
    assert_eq!(crowdfund.state(&token, DEADLINE - 1), 0);
    assert_eq!(crowdfund.state(&token, DEADLINE), 1);
}

#[test]
fn recipient_may_not_deposit() {
    let (mut token, mut crowdfund) = setup();
    token.mint(RECIPIENT, 5, true).unwrap();
    assert_eq!(
        crowdfund.deposit(&mut token, START, RECIPIENT, 5, true),
        Err(Error::RecipientMayNotDeposit)
    );
}

#[test]
fn deposit_requires_positive_amount() {
    let (mut token, mut crowdfund) = setup();
    assert_eq!(
        crowdfund.deposit(&mut token, START, USER2, 0, true),
        Err(Error::InvalidAmount)
    );
    assert_eq!(
        crowdfund.deposit(&mut token, START, USER2, -3, true),
        Err(Error::InvalidAmount)
    );
}

#[test]
fn deposit_requires_authorization() {
    let (mut token, mut crowdfund) = setup();
    assert_eq!(
        crowdfund.deposit(&mut token, START, USER2, 5, false),
        Err(Error::Unauthorized)
    );
    assert_eq!(token.balance(USER2), 8);
}

#[test]
fn deposit_requires_funds() {
    let (mut token, mut crowdfund) = setup();
    assert_eq!(
        crowdfund.deposit(&mut token, START, USER2, 9, true),
        Err(Error::InsufficientBalance)
    );
    assert_eq!(token.balance(USER2), 8);
    assert_eq!(token.balance(ESCROW), 10);
}

#[test]
fn escrow_operations_require_initialization() {
    let mut token = Token::new();
    token
        .initialize(ADMIN, 7, String::from("name"), String::from("symbol"))
        .unwrap();
    token.mint(USER1, 10, true).unwrap();
    let mut crowdfund = Crowdfund::new(ESCROW);
    assert_eq!(
        crowdfund.deposit(&mut token, START, USER1, 5, true),
        Err(Error::NotInitialized)
    );
    assert_eq!(
        crowdfund.withdraw(&mut token, START, USER1),
        Err(Error::NotInitialized)
    );
}

#[test]
fn initialize_guards() {
    let mut crowdfund = Crowdfund::new(ESCROW);
    assert_eq!(
        crowdfund.initialize(START, RECIPIENT, DEADLINE, 0, TOKEN_ID),
        Err(Error::InvalidAmount)
    );
    crowdfund
        .initialize(START, RECIPIENT, DEADLINE, 15, TOKEN_ID)
        .unwrap();
    assert_eq!(
        crowdfund.initialize(START, RECIPIENT, DEADLINE, 15, TOKEN_ID),
        Err(Error::AlreadyInitialized)
    );
    assert_eq!(crowdfund.recipient(), RECIPIENT);
    assert_eq!(crowdfund.deadline(), DEADLINE);
    assert_eq!(crowdfund.started(), START);
    assert_eq!(crowdfund.target(), 15);
    assert_eq!(crowdfund.token(), TOKEN_ID);
}

#[test]
fn balance_view_follows_phase() {
    let (mut token, mut crowdfund) = setup();
    // while running, everyone sees their own pledge
    assert_eq!(crowdfund.balance(&token, START, USER1), 10);
    assert_eq!(crowdfund.balance(&token, START, USER2), 0);
    crowdfund.deposit(&mut token, START, USER2, 5, true).unwrap();
    // after success, the recipient sees the pot and others see nothing
    assert_eq!(crowdfund.balance(&token, DEADLINE, RECIPIENT), 15);
    assert_eq!(crowdfund.balance(&token, DEADLINE, USER1), 0);
}
