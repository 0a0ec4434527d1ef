//! The operations of the token, one course of events or one refusal per test.

use token_ledger::{AccountId, Authorization, Event, Token, TokenError, TokenTrait};

const ADMIN: AccountId = AccountId { id: 1 };
const X: AccountId = AccountId { id: 10 };
const Y: AccountId = AccountId { id: 11 };
const Z: AccountId = AccountId { id: 12 };

/// A token with the administrator `ADMIN`, seven decimals, the name "Tok"
/// and the symbol "TOK".
fn initialized() -> Token {
    let mut token = Token::new();
    token
        .initialize(ADMIN, 7, b"Tok".to_vec(), b"TOK".to_vec())
        .unwrap();
    token
}

/// An initialized token in which `account` owns `amount`.
fn funded(account: AccountId, amount: i128) -> Token {
    let mut token = initialized();
    token
        .mint(&Authorization::of(ADMIN), ADMIN, account, amount)
        .unwrap();
    token
}

#[test]
fn initialize_then_mint_shows_balance_and_decimals() {
    let mut token = Token::new();
    assert_eq!(
        token.initialize(ADMIN, 7, b"Tok".to_vec(), b"TOK".to_vec()),
        Ok(())
    );
    assert_eq!(
        token.mint(&Authorization::of(ADMIN), ADMIN, X, 100),
        Ok(Event::Mint { admin: ADMIN, to: X, amount: 100 })
    );
    assert_eq!(token.balance(X), Ok(100));
    assert_eq!(token.decimals(), Ok(7));
    assert_eq!(token.name(), Ok(b"Tok".to_vec()));
    assert_eq!(token.symbol(), Ok(b"TOK".to_vec()));
}

#[test]
fn transfer_from_spends_allowance_and_moves_balance() {
    let mut token = funded(X, 100);
    token.mint(&Authorization::of(ADMIN), ADMIN, Z, 5).unwrap();
    assert_eq!(
        token.incr_allow(&Authorization::of(X), X, Y, 50),
        Ok(Event::IncrAllow { from: X, spender: Y, amount: 50 })
    );
    assert_eq!(
        token.transfer_from(&Authorization::of(Y), Y, X, Z, 30),
        Ok(Event::Transfer { from: X, to: Z, amount: 30 })
    );
    assert_eq!(token.allowance(X, Y), Ok(20));
    assert_eq!(token.balance(X), Ok(70));
    assert_eq!(token.balance(Z), Ok(35));
    assert_eq!(token.balance(Y), Ok(0));
}

#[test]
fn transfer_from_beyond_allowance_changes_nothing() {
    let mut token = funded(X, 2000);
    token.mint(&Authorization::of(ADMIN), ADMIN, Z, 5).unwrap();
    token.incr_allow(&Authorization::of(X), X, Y, 20).unwrap();
    assert_eq!(
        token.transfer_from(&Authorization::of(Y), Y, X, Z, 999),
        Err(TokenError::InsufficientAllowance)
    );
    assert_eq!(token.allowance(X, Y), Ok(20));
    assert_eq!(token.balance(X), Ok(2000));
    assert_eq!(token.balance(Y), Ok(0));
    assert_eq!(token.balance(Z), Ok(5));
}

#[test]
fn burn_from_beyond_allowance_changes_nothing() {
    let mut token = funded(X, 2000);
    token.incr_allow(&Authorization::of(X), X, Y, 20).unwrap();
    assert_eq!(
        token.burn_from(&Authorization::of(Y), Y, X, 21),
        Err(TokenError::InsufficientAllowance)
    );
    assert_eq!(token.allowance(X, Y), Ok(20));
    assert_eq!(token.balance(X), Ok(2000));
}

#[test]
fn deauthorized_account_cannot_send_or_receive() {
    let mut token = funded(X, 100);
    token.mint(&Authorization::of(ADMIN), ADMIN, Y, 40).unwrap();
    assert_eq!(
        token.set_auth(&Authorization::of(ADMIN), ADMIN, X, false),
        Ok(Event::SetAuth { admin: ADMIN, id: X, authorize: false })
    );
    assert_eq!(token.authorized(X), Ok(false));
    assert_eq!(token.authorized(Y), Ok(true));
    // sending
    assert_eq!(token.transfer(X, Y, 1), Err(TokenError::NotAuthorized));
    // receiving
    assert_eq!(token.transfer(Y, X, 1), Err(TokenError::NotAuthorized));
    // through a spender
    token.incr_allow(&Authorization::of(X), X, Z, 10).unwrap();
    assert_eq!(
        token.transfer_from(&Authorization::of(Z), Z, X, Y, 1),
        Err(TokenError::NotAuthorized)
    );
    assert_eq!(token.allowance(X, Z), Ok(10));
    // burning, clawing back and minting
    assert_eq!(
        token.burn(&Authorization::of(X), X, 1),
        Err(TokenError::NotAuthorized)
    );
    assert_eq!(
        token.burn_from(&Authorization::of(Z), Z, X, 1),
        Err(TokenError::NotAuthorized)
    );
    assert_eq!(
        token.clawback(&Authorization::of(ADMIN), ADMIN, X, 1),
        Err(TokenError::NotAuthorized)
    );
    assert_eq!(
        token.mint(&Authorization::of(ADMIN), ADMIN, X, 1),
        Err(TokenError::NotAuthorized)
    );
    assert_eq!(token.balance(X), Ok(100));
    assert_eq!(token.balance(Y), Ok(40));
    // the balance stays through a freeze and a thaw
    token
        .set_auth(&Authorization::of(ADMIN), ADMIN, X, true)
        .unwrap();
    assert_eq!(token.authorized(X), Ok(true));
    assert_eq!(
        token.transfer(X, Y, 1),
        Ok(Event::Transfer { from: X, to: Y, amount: 1 })
    );
    assert_eq!(token.balance(X), Ok(99));
    assert_eq!(token.balance(Y), Ok(41));
}

#[test]
fn second_initialize_is_refused_and_keeps_the_first() {
    let mut token = initialized();
    assert_eq!(
        token.initialize(X, 3, b"Other".to_vec(), b"OTH".to_vec()),
        Err(TokenError::AlreadyInitialized)
    );
    assert_eq!(token.decimals(), Ok(7));
    assert_eq!(token.name(), Ok(b"Tok".to_vec()));
    assert_eq!(token.symbol(), Ok(b"TOK".to_vec()));
    // the first administrator is still the administrator
    assert_eq!(
        token.mint(&Authorization::of(X), X, X, 1),
        Err(TokenError::NotAdmin)
    );
    assert!(token.mint(&Authorization::of(ADMIN), ADMIN, X, 1).is_ok());
}

#[test]
fn already_initialized_comes_before_invalid_metadata() {
    let mut token = initialized();
    assert_eq!(
        token.initialize(X, 256, Vec::new(), Vec::new()),
        Err(TokenError::AlreadyInitialized)
    );
}

#[test]
fn initialize_refuses_decimals_beyond_a_byte() {
    let mut token = Token::new();
    assert_eq!(
        token.initialize(ADMIN, 256, b"Tok".to_vec(), b"TOK".to_vec()),
        Err(TokenError::InvalidMetadata)
    );
    // nothing was set: the token is still uninitialized and can be initialized
    assert_eq!(token.decimals(), Err(TokenError::Uninitialized));
    assert_eq!(
        token.initialize(ADMIN, 255, b"Tok".to_vec(), b"TOK".to_vec()),
        Ok(())
    );
    assert_eq!(token.decimals(), Ok(255));
}

#[test]
fn initialize_accepts_empty_name_and_zero_decimals() {
    let mut token = Token::new();
    assert_eq!(token.initialize(ADMIN, 0, Vec::new(), Vec::new()), Ok(()));
    assert_eq!(token.decimals(), Ok(0));
    assert_eq!(token.name(), Ok(Vec::new()));
    assert_eq!(token.symbol(), Ok(Vec::new()));
}

#[test]
fn uninitialized_token_refuses_every_query() {
    let token = Token::new();
    assert_eq!(token.allowance(X, Y), Err(TokenError::Uninitialized));
    assert_eq!(token.balance(X), Err(TokenError::Uninitialized));
    assert_eq!(token.spendable(X), Err(TokenError::Uninitialized));
    assert_eq!(token.authorized(X), Err(TokenError::Uninitialized));
    assert_eq!(token.decimals(), Err(TokenError::Uninitialized));
    assert_eq!(token.name(), Err(TokenError::Uninitialized));
    assert_eq!(token.symbol(), Err(TokenError::Uninitialized));
}

#[test]
fn uninitialized_token_refuses_every_change() {
    let mut token = Token::new();
    let x = Authorization::of(X);
    assert_eq!(token.incr_allow(&x, X, Y, 1), Err(TokenError::Uninitialized));
    assert_eq!(token.decr_allow(&x, X, Y, 1), Err(TokenError::Uninitialized));
    assert_eq!(token.transfer(X, Y, 0), Err(TokenError::Uninitialized));
    assert_eq!(
        token.transfer_from(&x, X, Y, Z, 0),
        Err(TokenError::Uninitialized)
    );
    assert_eq!(token.burn(&x, X, 0), Err(TokenError::Uninitialized));
    assert_eq!(token.burn_from(&x, X, Y, 0), Err(TokenError::Uninitialized));
    assert_eq!(token.clawback(&x, X, Y, 0), Err(TokenError::Uninitialized));
    assert_eq!(
        token.set_auth(&x, X, Y, false),
        Err(TokenError::Uninitialized)
    );
    assert_eq!(token.mint(&x, X, Y, 1), Err(TokenError::Uninitialized));
    assert_eq!(token.set_admin(&x, X, Y), Err(TokenError::Uninitialized));
    // and is still fresh afterwards
    assert_eq!(token.initialize(ADMIN, 7, Vec::new(), Vec::new()), Ok(()));
    assert_eq!(token.balance(Y), Ok(0));
    assert_eq!(token.allowance(X, Y), Ok(0));
    assert_eq!(token.authorized(Y), Ok(true));
}

#[test]
fn untouched_account_owns_nothing_and_is_authorized() {
    let token = initialized();
    assert_eq!(token.balance(X), Ok(0));
    assert_eq!(token.spendable(X), Ok(0));
    assert_eq!(token.authorized(X), Ok(true));
    assert_eq!(token.allowance(X, Y), Ok(0));
}

#[test]
fn spendable_equals_balance() {
    let mut token = funded(X, 100);
    assert_eq!(token.spendable(X), token.balance(X));
    token.transfer(X, Y, 33).unwrap();
    assert_eq!(token.spendable(X), Ok(67));
    assert_eq!(token.spendable(Y), Ok(33));
    assert_eq!(token.spendable(X), token.balance(X));
    assert_eq!(token.spendable(Y), token.balance(Y));
}

#[test]
fn negative_amount_is_refused_by_every_operation() {
    let mut token = funded(X, 100);
    token.incr_allow(&Authorization::of(X), X, Y, 50).unwrap();
    let x = Authorization::of(X);
    let y = Authorization::of(Y);
    let admin = Authorization::of(ADMIN);
    assert_eq!(token.incr_allow(&x, X, Y, -1), Err(TokenError::NegativeAmount));
    assert_eq!(token.decr_allow(&x, X, Y, -1), Err(TokenError::NegativeAmount));
    assert_eq!(token.transfer(X, Y, -1), Err(TokenError::NegativeAmount));
    assert_eq!(
        token.transfer_from(&y, Y, X, Z, -1),
        Err(TokenError::NegativeAmount)
    );
    assert_eq!(token.burn(&x, X, -1), Err(TokenError::NegativeAmount));
    assert_eq!(token.burn_from(&y, Y, X, -1), Err(TokenError::NegativeAmount));
    assert_eq!(
        token.clawback(&admin, ADMIN, X, -1),
        Err(TokenError::NegativeAmount)
    );
    assert_eq!(
        token.mint(&admin, ADMIN, X, i128::MIN),
        Err(TokenError::NegativeAmount)
    );
    assert_eq!(token.balance(X), Ok(100));
    assert_eq!(token.allowance(X, Y), Ok(50));
}

#[test]
fn zero_amount_is_accepted() {
    let mut token = initialized();
    assert_eq!(
        token.transfer(X, Y, 0),
        Ok(Event::Transfer { from: X, to: Y, amount: 0 })
    );
    assert_eq!(
        token.burn(&Authorization::of(X), X, 0),
        Ok(Event::Burn { from: X, amount: 0 })
    );
    assert_eq!(
        token.transfer_from(&Authorization::of(Y), Y, X, Z, 0),
        Ok(Event::Transfer { from: X, to: Z, amount: 0 })
    );
    assert_eq!(
        token.mint(&Authorization::of(ADMIN), ADMIN, X, 0),
        Ok(Event::Mint { admin: ADMIN, to: X, amount: 0 })
    );
    assert_eq!(token.balance(X), Ok(0));
    assert_eq!(token.balance(Y), Ok(0));
}

#[test]
fn missing_authorization_is_refused() {
    let mut token = funded(X, 100);
    token.incr_allow(&Authorization::of(X), X, Y, 50).unwrap();
    let nobody = Authorization::none();
    let z = Authorization::of(Z);
    assert_eq!(token.incr_allow(&z, X, Y, 1), Err(TokenError::NotAuthorized));
    assert_eq!(token.decr_allow(&nobody, X, Y, 1), Err(TokenError::NotAuthorized));
    assert_eq!(
        token.transfer_from(&Authorization::of(X), Y, X, Z, 1),
        Err(TokenError::NotAuthorized)
    );
    assert_eq!(token.burn(&z, X, 1), Err(TokenError::NotAuthorized));
    assert_eq!(
        token.burn_from(&Authorization::of(X), Y, X, 1),
        Err(TokenError::NotAuthorized)
    );
    assert_eq!(token.clawback(&z, ADMIN, X, 1), Err(TokenError::NotAuthorized));
    assert_eq!(
        token.set_auth(&z, ADMIN, X, false),
        Err(TokenError::NotAuthorized)
    );
    assert_eq!(token.mint(&nobody, ADMIN, X, 1), Err(TokenError::NotAuthorized));
    assert_eq!(token.set_admin(&z, ADMIN, Z), Err(TokenError::NotAuthorized));
    assert_eq!(token.balance(X), Ok(100));
    assert_eq!(token.allowance(X, Y), Ok(50));
    assert_eq!(token.authorized(X), Ok(true));
}

#[test]
fn authorization_is_tested_before_the_amount() {
    let mut token = funded(X, 100);
    let nobody = Authorization::none();
    assert_eq!(
        token.incr_allow(&nobody, X, Y, -1),
        Err(TokenError::NotAuthorized)
    );
    assert_eq!(
        token.clawback(&nobody, ADMIN, X, -1),
        Err(TokenError::NotAuthorized)
    );
    assert_eq!(
        token.mint(&nobody, X, X, -1),
        Err(TokenError::NotAuthorized)
    );
}

#[test]
fn amount_is_tested_before_the_state() {
    let mut fresh = Token::new();
    assert_eq!(fresh.transfer(X, Y, -1), Err(TokenError::NegativeAmount));
    assert_eq!(
        fresh.mint(&Authorization::of(X), X, Y, -1),
        Err(TokenError::NegativeAmount)
    );
    let mut token = funded(X, 100);
    // not the administrator, and a negative amount
    assert_eq!(
        token.mint(&Authorization::of(X), X, Y, -1),
        Err(TokenError::NegativeAmount)
    );
    // no allowance, no balance, and a negative amount
    assert_eq!(
        token.transfer_from(&Authorization::of(Y), Y, Z, X, -5),
        Err(TokenError::NegativeAmount)
    );
}

#[test]
fn transfer_needs_no_authorization() {
    let mut token = funded(X, 100);
    assert_eq!(
        token.transfer(X, Y, 60),
        Ok(Event::Transfer { from: X, to: Y, amount: 60 })
    );
    assert_eq!(token.balance(X), Ok(40));
    assert_eq!(token.balance(Y), Ok(60));
}

#[test]
fn transfer_beyond_balance_is_refused() {
    let mut token = funded(X, 100);
    assert_eq!(token.transfer(X, Y, 101), Err(TokenError::InsufficientBalance));
    assert_eq!(token.transfer(Y, X, 1), Err(TokenError::InsufficientBalance));
    assert_eq!(token.balance(X), Ok(100));
    assert_eq!(token.balance(Y), Ok(0));
    assert_eq!(
        token.transfer(X, Y, 100),
        Ok(Event::Transfer { from: X, to: Y, amount: 100 })
    );
    assert_eq!(token.balance(X), Ok(0));
    assert_eq!(token.balance(Y), Ok(100));
}

#[test]
fn transfer_to_oneself_keeps_the_balance() {
    let mut token = funded(X, i128::MAX);
    assert_eq!(
        token.transfer(X, X, i128::MAX),
        Ok(Event::Transfer { from: X, to: X, amount: i128::MAX })
    );
    assert_eq!(token.balance(X), Ok(i128::MAX));
    assert_eq!(token.transfer(X, X, 1), Ok(Event::Transfer { from: X, to: X, amount: 1 }));
    assert_eq!(token.balance(X), Ok(i128::MAX));
}

#[test]
fn transfer_that_overflows_the_receiver_changes_nothing() {
    let mut token = funded(X, i128::MAX);
    token.mint(&Authorization::of(ADMIN), ADMIN, Y, 10).unwrap();
    assert_eq!(token.transfer(Y, X, 1), Err(TokenError::Overflow));
    assert_eq!(token.balance(X), Ok(i128::MAX));
    assert_eq!(token.balance(Y), Ok(10));
    token.incr_allow(&Authorization::of(Y), Y, Z, 5).unwrap();
    assert_eq!(
        token.transfer_from(&Authorization::of(Z), Z, Y, X, 5),
        Err(TokenError::Overflow)
    );
    assert_eq!(token.allowance(Y, Z), Ok(5));
    assert_eq!(token.balance(Y), Ok(10));
}

#[test]
fn transfer_from_beyond_balance_keeps_the_allowance() {
    let mut token = funded(X, 10);
    token.incr_allow(&Authorization::of(X), X, Y, 50).unwrap();
    assert_eq!(
        token.transfer_from(&Authorization::of(Y), Y, X, Z, 11),
        Err(TokenError::InsufficientBalance)
    );
    assert_eq!(token.allowance(X, Y), Ok(50));
    assert_eq!(token.balance(X), Ok(10));
    assert_eq!(token.balance(Z), Ok(0));
}

#[test]
fn transfer_from_can_spend_the_whole_allowance() {
    let mut token = funded(X, 100);
    token.incr_allow(&Authorization::of(X), X, Y, 50).unwrap();
    assert_eq!(
        token.transfer_from(&Authorization::of(Y), Y, X, Y, 50),
        Ok(Event::Transfer { from: X, to: Y, amount: 50 })
    );
    assert_eq!(token.allowance(X, Y), Ok(0));
    assert_eq!(token.balance(X), Ok(50));
    assert_eq!(token.balance(Y), Ok(50));
    assert_eq!(
        token.transfer_from(&Authorization::of(Y), Y, X, Y, 1),
        Err(TokenError::InsufficientAllowance)
    );
}

#[test]
fn allowance_is_per_owner_and_spender() {
    let mut token = initialized();
    token.incr_allow(&Authorization::of(X), X, Y, 50).unwrap();
    assert_eq!(token.allowance(X, Y), Ok(50));
    assert_eq!(token.allowance(Y, X), Ok(0));
    assert_eq!(token.allowance(X, Z), Ok(0));
    token.incr_allow(&Authorization::of(Y), Y, X, 7).unwrap();
    token.incr_allow(&Authorization::of(X), X, Y, 1).unwrap();
    assert_eq!(token.allowance(X, Y), Ok(51));
    assert_eq!(token.allowance(Y, X), Ok(7));
}

#[test]
fn incr_allow_that_overflows_changes_nothing() {
    let mut token = initialized();
    let x = Authorization::of(X);
    token.incr_allow(&x, X, Y, i128::MAX - 1).unwrap();
    assert_eq!(token.incr_allow(&x, X, Y, 2), Err(TokenError::Overflow));
    assert_eq!(token.allowance(X, Y), Ok(i128::MAX - 1));
    assert_eq!(
        token.incr_allow(&x, X, Y, 1),
        Ok(Event::IncrAllow { from: X, spender: Y, amount: 1 })
    );
    assert_eq!(token.allowance(X, Y), Ok(i128::MAX));
}

#[test]
fn decr_allow_subtracts() {
    let mut token = initialized();
    let x = Authorization::of(X);
    token.incr_allow(&x, X, Y, 50).unwrap();
    assert_eq!(
        token.decr_allow(&x, X, Y, 20),
        Ok(Event::DecrAllow { from: X, spender: Y, amount: 20 })
    );
    assert_eq!(token.allowance(X, Y), Ok(30));
}

#[test]
fn decr_allow_by_the_allowance_or_more_leaves_zero() {
    let mut token = initialized();
    let x = Authorization::of(X);
    token.incr_allow(&x, X, Y, 50).unwrap();
    assert_eq!(
        token.decr_allow(&x, X, Y, 50),
        Ok(Event::DecrAllow { from: X, spender: Y, amount: 50 })
    );
    assert_eq!(token.allowance(X, Y), Ok(0));
    token.incr_allow(&x, X, Y, 50).unwrap();
    assert_eq!(
        token.decr_allow(&x, X, Y, i128::MAX),
        Ok(Event::DecrAllow { from: X, spender: Y, amount: i128::MAX })
    );
    assert_eq!(token.allowance(X, Y), Ok(0));
    // and of a pair that never had one
    assert_eq!(
        token.decr_allow(&x, X, Z, 5),
        Ok(Event::DecrAllow { from: X, spender: Z, amount: 5 })
    );
    assert_eq!(token.allowance(X, Z), Ok(0));
}

#[test]
fn burn_destroys_value() {
    let mut token = funded(X, 100);
    assert_eq!(
        token.burn(&Authorization::of(X), X, 40),
        Ok(Event::Burn { from: X, amount: 40 })
    );
    assert_eq!(token.balance(X), Ok(60));
    assert_eq!(
        token.burn(&Authorization::of(X), X, 61),
        Err(TokenError::InsufficientBalance)
    );
    assert_eq!(token.balance(X), Ok(60));
}

#[test]
fn burn_from_spends_allowance_and_destroys_value() {
    let mut token = funded(X, 100);
    token.incr_allow(&Authorization::of(X), X, Y, 50).unwrap();
    assert_eq!(
        token.burn_from(&Authorization::of(Y), Y, X, 30),
        Ok(Event::Burn { from: X, amount: 30 })
    );
    assert_eq!(token.allowance(X, Y), Ok(20));
    assert_eq!(token.balance(X), Ok(70));
    assert_eq!(token.balance(Y), Ok(0));
}

#[test]
fn burn_from_beyond_balance_keeps_the_allowance() {
    let mut token = funded(X, 10);
    token.incr_allow(&Authorization::of(X), X, Y, 50).unwrap();
    assert_eq!(
        token.burn_from(&Authorization::of(Y), Y, X, 11),
        Err(TokenError::InsufficientBalance)
    );
    assert_eq!(token.allowance(X, Y), Ok(50));
    assert_eq!(token.balance(X), Ok(10));
}

#[test]
fn clawback_needs_no_allowance() {
    let mut token = funded(X, 100);
    token.incr_allow(&Authorization::of(X), X, ADMIN, 5).unwrap();
    assert_eq!(
        token.clawback(&Authorization::of(ADMIN), ADMIN, X, 70),
        Ok(Event::Clawback { admin: ADMIN, from: X, amount: 70 })
    );
    assert_eq!(token.balance(X), Ok(30));
    assert_eq!(token.allowance(X, ADMIN), Ok(5));
    assert_eq!(
        token.clawback(&Authorization::of(ADMIN), ADMIN, X, 31),
        Err(TokenError::InsufficientBalance)
    );
    assert_eq!(token.balance(X), Ok(30));
}

#[test]
fn only_the_administrator_may_act_as_one() {
    let mut token = funded(X, 100);
    let x = Authorization::of(X);
    assert_eq!(token.clawback(&x, X, Y, 1), Err(TokenError::NotAdmin));
    assert_eq!(token.set_auth(&x, X, Y, false), Err(TokenError::NotAdmin));
    assert_eq!(token.mint(&x, X, X, 1), Err(TokenError::NotAdmin));
    assert_eq!(token.set_admin(&x, X, X), Err(TokenError::NotAdmin));
    assert_eq!(token.balance(X), Ok(100));
    assert_eq!(token.authorized(Y), Ok(true));
}

#[test]
fn mint_that_overflows_changes_nothing() {
    let mut token = funded(X, i128::MAX);
    assert_eq!(
        token.mint(&Authorization::of(ADMIN), ADMIN, X, 1),
        Err(TokenError::Overflow)
    );
    assert_eq!(token.balance(X), Ok(i128::MAX));
    // another account can still receive: balances overflow one by one
    assert_eq!(
        token.mint(&Authorization::of(ADMIN), ADMIN, Y, i128::MAX),
        Ok(Event::Mint { admin: ADMIN, to: Y, amount: i128::MAX })
    );
    assert_eq!(token.balance(Y), Ok(i128::MAX));
}

#[test]
fn set_admin_hands_over_the_office() {
    let mut token = initialized();
    assert_eq!(
        token.set_admin(&Authorization::of(ADMIN), ADMIN, X),
        Ok(Event::SetAdmin { admin: ADMIN, new_admin: X })
    );
    assert_eq!(
        token.mint(&Authorization::of(ADMIN), ADMIN, Y, 1),
        Err(TokenError::NotAdmin)
    );
    assert_eq!(
        token.mint(&Authorization::of(X), X, Y, 1),
        Ok(Event::Mint { admin: X, to: Y, amount: 1 })
    );
    // the metadata is untouched
    assert_eq!(token.decimals(), Ok(7));
    assert_eq!(token.name(), Ok(b"Tok".to_vec()));
}

#[test]
fn set_auth_keeps_the_balance() {
    let mut token = funded(X, 100);
    token
        .set_auth(&Authorization::of(ADMIN), ADMIN, X, false)
        .unwrap();
    assert_eq!(token.balance(X), Ok(100));
    // an account without any record can be deauthorized too
    token
        .set_auth(&Authorization::of(ADMIN), ADMIN, Z, false)
        .unwrap();
    assert_eq!(token.authorized(Z), Ok(false));
    assert_eq!(token.balance(Z), Ok(0));
}

#[test]
fn supply_is_minted_less_burned() {
    let mut token = initialized();
    let admin = Authorization::of(ADMIN);
    let accounts = [ADMIN, X, Y, Z];
    let total = |token: &Token| -> i128 {
        accounts.iter().map(|a| token.balance(*a).unwrap()).sum()
    };
    token.mint(&admin, ADMIN, X, 100).unwrap();
    token.mint(&admin, ADMIN, Y, 50).unwrap();
    assert_eq!(total(&token), 150);
    token.transfer(X, Z, 30).unwrap();
    token.transfer(Y, X, 5).unwrap();
    assert_eq!(total(&token), 150);
    token.burn(&Authorization::of(Z), Z, 10).unwrap();
    assert_eq!(total(&token), 140);
    token.incr_allow(&Authorization::of(X), X, Y, 40).unwrap();
    token.burn_from(&Authorization::of(Y), Y, X, 15).unwrap();
    assert_eq!(total(&token), 125);
    token.transfer_from(&Authorization::of(Y), Y, X, Z, 25).unwrap();
    assert_eq!(total(&token), 125);
    token.clawback(&admin, ADMIN, Z, 45).unwrap();
    assert_eq!(total(&token), 80);
    // refused calls create and destroy nothing
    assert!(token.mint(&Authorization::of(X), X, X, 1000).is_err());
    assert!(token.burn(&Authorization::of(X), X, 1000).is_err());
    assert!(token.clawback(&admin, ADMIN, Y, 1000).is_err());
    assert_eq!(total(&token), 80);
    assert_eq!(token.balance(X), Ok(35));
    assert_eq!(token.balance(Y), Ok(45));
    assert_eq!(token.balance(Z), Ok(0));
    assert_eq!(token.balance(ADMIN), Ok(0));
}

#[test]
fn balances_and_allowances_stay_at_or_above_zero() {
    let mut token = funded(X, 10);
    let x = Authorization::of(X);
    let y = Authorization::of(Y);
    token.incr_allow(&x, X, Y, 10).unwrap();
    let _ = token.transfer(X, Y, 11);
    let _ = token.burn(&x, X, 11);
    let _ = token.transfer_from(&y, Y, X, Z, 11);
    let _ = token.burn_from(&y, Y, X, 11);
    let _ = token.decr_allow(&x, X, Y, 11);
    let _ = token.clawback(&Authorization::of(ADMIN), ADMIN, X, 11);
    for account in [ADMIN, X, Y, Z] {
        assert!(token.balance(account).unwrap() >= 0);
        for spender in [ADMIN, X, Y, Z] {
            assert!(token.allowance(account, spender).unwrap() >= 0);
        }
    }
    assert_eq!(token.balance(X), Ok(10));
    assert_eq!(token.allowance(X, Y), Ok(0));
}
