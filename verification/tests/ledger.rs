use simple_token::AccountId;
use simple_token::Error;
use simple_token::SimpleToken;

fn admin() -> AccountId {
    AccountId(1)
}

fn acct_a() -> AccountId {
    AccountId(2)
}

fn acct_b() -> AccountId {
    AccountId(3)
}

fn spender() -> AccountId {
    AccountId(4)
}

#[test]
fn new_ledger_is_empty() {
    let t = SimpleToken::new(admin());
    assert_eq!(t.get_owner(), admin());
    assert_eq!(t.total_supply(), 0);
    assert_eq!(t.balance_of(acct_a()), 0);
    assert_eq!(t.balance_of(admin()), 0);
}

#[test]
fn mint_credits_recipient_and_supply() {
    let mut t = SimpleToken::new(admin());
    assert_eq!(t.mint(admin(), acct_a(), 100), Ok(()));
    assert_eq!(t.balance_of(acct_a()), 100);
    assert_eq!(t.total_supply(), 100);
}

#[test]
fn mint_by_non_administrator_is_unauthorized() {
    let mut t = SimpleToken::new(admin());
    assert_eq!(t.mint(acct_a(), acct_a(), 100), Err(Error::Unauthorized));
    assert_eq!(t.total_supply(), 0);
    assert_eq!(t.balance_of(acct_a()), 0);
}

#[test]
fn mint_zero_is_invalid_amount() {
    let mut t = SimpleToken::new(admin());
    assert_eq!(t.mint(admin(), acct_a(), 0), Err(Error::InvalidAmount));
    assert_eq!(t.total_supply(), 0);
}

#[test]
fn mint_past_max_supply_is_overflow() {
    let mut t = SimpleToken::new(admin());
    assert_eq!(t.mint(admin(), acct_a(), u128::MAX), Ok(()));
    assert_eq!(t.total_supply(), u128::MAX);
    assert_eq!(t.mint(admin(), acct_b(), 1), Err(Error::Overflow));
    assert_eq!(t.total_supply(), u128::MAX);
    assert_eq!(t.balance_of(acct_b()), 0);
}

#[test]
fn transfer_zero_is_invalid_amount() {
    let mut t = SimpleToken::new(admin());
    assert_eq!(t.transfer(acct_a(), acct_b(), 0), Err(Error::InvalidAmount));
    assert_eq!(t.mint(admin(), acct_a(), 50), Ok(()));
    assert_eq!(t.transfer(acct_a(), acct_b(), 0), Err(Error::InvalidAmount));
    assert_eq!(t.balance_of(acct_a()), 50);
    assert_eq!(t.balance_of(acct_b()), 0);
}

#[test]
fn transfer_beyond_balance_is_rejected_unchanged() {
    let mut t = SimpleToken::new(admin());
    assert_eq!(t.mint(admin(), acct_a(), 50), Ok(()));
    assert_eq!(
        t.transfer(acct_a(), acct_b(), 60),
        Err(Error::InsufficientBalance)
    );
    assert_eq!(t.balance_of(acct_a()), 50);
    assert_eq!(t.balance_of(acct_b()), 0);
    assert_eq!(t.total_supply(), 50);
}

#[test]
fn transfer_of_whole_balance_succeeds() {
    let mut t = SimpleToken::new(admin());
    assert_eq!(t.mint(admin(), acct_a(), 50), Ok(()));
    assert_eq!(t.transfer(acct_a(), acct_b(), 50), Ok(()));
    assert_eq!(t.balance_of(acct_a()), 0);
    assert_eq!(t.balance_of(acct_b()), 50);
    assert_eq!(t.total_supply(), 50);
}

#[test]
fn self_transfer_leaves_balance_unchanged() {
    let mut t = SimpleToken::new(admin());
    assert_eq!(t.mint(admin(), acct_a(), 70), Ok(()));
    assert_eq!(t.transfer(acct_a(), acct_a(), 30), Ok(()));
    assert_eq!(t.balance_of(acct_a()), 70);
    assert_eq!(t.total_supply(), 70);
}

#[test]
fn self_transfer_of_whole_max_balance_does_not_overflow() {
    let mut t = SimpleToken::new(admin());
    assert_eq!(t.mint(admin(), acct_a(), u128::MAX), Ok(()));
    assert_eq!(t.transfer(acct_a(), acct_a(), u128::MAX), Ok(()));
    assert_eq!(t.balance_of(acct_a()), u128::MAX);
    assert_eq!(t.total_supply(), u128::MAX);
}

#[test]
fn pause_blocks_transfers_but_not_mint() {
    let mut t = SimpleToken::new(admin());
    assert_eq!(t.mint(admin(), acct_a(), 50), Ok(()));
    assert_eq!(t.set_paused(admin(), true), Ok(()));
    assert_eq!(t.transfer(acct_a(), acct_b(), 10), Err(Error::ContractPaused));
    assert_eq!(
        t.transfer_from(spender(), acct_a(), acct_b(), 10),
        Err(Error::ContractPaused)
    );
    assert_eq!(t.mint(admin(), acct_a(), 25), Ok(()));
    assert_eq!(t.balance_of(acct_a()), 75);
    assert_eq!(t.set_paused(admin(), false), Ok(()));
    assert_eq!(t.transfer(acct_a(), acct_b(), 10), Ok(()));
    assert_eq!(t.balance_of(acct_b()), 10);
}

#[test]
fn set_paused_by_non_administrator_is_unauthorized() {
    let mut t = SimpleToken::new(admin());
    assert_eq!(t.set_paused(acct_a(), true), Err(Error::Unauthorized));
    assert_eq!(t.mint(admin(), acct_a(), 5), Ok(()));
    assert_eq!(t.transfer(acct_a(), acct_b(), 5), Ok(()));
}

#[test]
fn blacklisted_account_can_neither_send_nor_receive() {
    let mut t = SimpleToken::new(admin());
    assert_eq!(t.mint(admin(), acct_a(), 50), Ok(()));
    assert_eq!(t.mint(admin(), acct_b(), 50), Ok(()));
    assert_eq!(t.blacklist(admin(), acct_a(), true), Ok(()));
    assert_eq!(
        t.transfer(acct_a(), acct_b(), 10),
        Err(Error::AccountBlacklisted)
    );
    assert_eq!(
        t.transfer(acct_b(), acct_a(), 10),
        Err(Error::AccountBlacklisted)
    );
    assert_eq!(t.balance_of(acct_a()), 50);
    assert_eq!(t.balance_of(acct_b()), 50);
}

#[test]
fn unblacklisting_restores_transfers() {
    let mut t = SimpleToken::new(admin());
    assert_eq!(t.mint(admin(), acct_a(), 50), Ok(()));
    assert_eq!(t.blacklist(admin(), acct_a(), true), Ok(()));
    assert_eq!(
        t.transfer(acct_a(), acct_b(), 10),
        Err(Error::AccountBlacklisted)
    );
    assert_eq!(t.blacklist(admin(), acct_a(), false), Ok(()));
    assert_eq!(t.transfer(acct_a(), acct_b(), 10), Ok(()));
    assert_eq!(t.balance_of(acct_b()), 10);
}

#[test]
fn blacklist_by_non_administrator_is_unauthorized() {
    let mut t = SimpleToken::new(admin());
    assert_eq!(
        t.blacklist(acct_a(), acct_b(), true),
        Err(Error::Unauthorized)
    );
    assert_eq!(t.mint(admin(), acct_b(), 5), Ok(()));
    assert_eq!(t.transfer(acct_b(), acct_a(), 5), Ok(()));
}

#[test]
fn approve_then_overspend_then_exact_spend() {
    let mut t = SimpleToken::new(admin());
    assert_eq!(t.mint(admin(), acct_a(), 100), Ok(()));
    assert_eq!(t.approve(acct_a(), spender(), 30), Ok(()));
    assert_eq!(
        t.transfer_from(spender(), acct_a(), acct_b(), 40),
        Err(Error::InsufficientAllowance)
    );
    assert_eq!(t.balance_of(acct_a()), 100);
    assert_eq!(t.balance_of(acct_b()), 0);
    assert_eq!(t.transfer_from(spender(), acct_a(), acct_b(), 30), Ok(()));
    assert_eq!(t.balance_of(acct_a()), 70);
    assert_eq!(t.balance_of(acct_b()), 30);
    assert_eq!(t.total_supply(), 100);
    // the allowance was decremented to exactly zero: one more token is refused
    assert_eq!(
        t.transfer_from(spender(), acct_a(), acct_b(), 1),
        Err(Error::InsufficientAllowance)
    );
}

#[test]
fn reapproval_overwrites_instead_of_adding() {
    let mut t = SimpleToken::new(admin());
    assert_eq!(t.mint(admin(), acct_a(), 100), Ok(()));
    assert_eq!(t.approve(acct_a(), spender(), 30), Ok(()));
    assert_eq!(t.approve(acct_a(), spender(), 10), Ok(()));
    assert_eq!(
        t.transfer_from(spender(), acct_a(), acct_b(), 11),
        Err(Error::InsufficientAllowance)
    );
    assert_eq!(t.transfer_from(spender(), acct_a(), acct_b(), 10), Ok(()));
}

#[test]
fn transfer_from_checks_allowance_before_balance() {
    let mut t = SimpleToken::new(admin());
    assert_eq!(t.mint(admin(), acct_a(), 10), Ok(()));
    assert_eq!(t.approve(acct_a(), spender(), 50), Ok(()));
    // allowance covers 20 but the balance does not
    assert_eq!(
        t.transfer_from(spender(), acct_a(), acct_b(), 20),
        Err(Error::InsufficientBalance)
    );
    assert_eq!(t.balance_of(acct_a()), 10);
}

#[test]
fn transfer_from_zero_is_invalid_amount() {
    let mut t = SimpleToken::new(admin());
    assert_eq!(t.mint(admin(), acct_a(), 10), Ok(()));
    assert_eq!(t.approve(acct_a(), spender(), 5), Ok(()));
    assert_eq!(
        t.transfer_from(spender(), acct_a(), acct_b(), 0),
        Err(Error::InvalidAmount)
    );
}

#[test]
fn transfer_from_gates_owner_and_recipient_not_spender() {
    let mut t = SimpleToken::new(admin());
    assert_eq!(t.mint(admin(), acct_a(), 50), Ok(()));
    assert_eq!(t.approve(acct_a(), spender(), 50), Ok(()));
    // a blacklisted spender may still move the owner's tokens
    assert_eq!(t.blacklist(admin(), spender(), true), Ok(()));
    assert_eq!(t.transfer_from(spender(), acct_a(), acct_b(), 10), Ok(()));
    // a blacklisted owner may not be spent from
    assert_eq!(t.blacklist(admin(), acct_a(), true), Ok(()));
    assert_eq!(
        t.transfer_from(spender(), acct_a(), acct_b(), 10),
        Err(Error::AccountBlacklisted)
    );
    // a blacklisted recipient may not receive
    assert_eq!(t.blacklist(admin(), acct_a(), false), Ok(()));
    assert_eq!(t.blacklist(admin(), acct_b(), true), Ok(()));
    assert_eq!(
        t.transfer_from(spender(), acct_a(), acct_b(), 10),
        Err(Error::AccountBlacklisted)
    );
}

#[test]
fn approve_is_not_gated_by_pause_or_blacklist() {
    let mut t = SimpleToken::new(admin());
    assert_eq!(t.mint(admin(), acct_a(), 50), Ok(()));
    assert_eq!(t.set_paused(admin(), true), Ok(()));
    assert_eq!(t.blacklist(admin(), acct_a(), true), Ok(()));
    // approval only records an allowance; every check happens at spend time
    assert_eq!(t.approve(acct_a(), spender(), 20), Ok(()));
    assert_eq!(t.set_paused(admin(), false), Ok(()));
    assert_eq!(t.blacklist(admin(), acct_a(), false), Ok(()));
    assert_eq!(t.transfer_from(spender(), acct_a(), acct_b(), 20), Ok(()));
    assert_eq!(t.balance_of(acct_b()), 20);
}

#[test]
fn burn_reduces_balance_and_supply() {
    let mut t = SimpleToken::new(admin());
    assert_eq!(t.mint(admin(), acct_a(), 100), Ok(()));
    assert_eq!(t.burn(acct_a(), 40), Ok(()));
    assert_eq!(t.balance_of(acct_a()), 60);
    assert_eq!(t.total_supply(), 60);
}

#[test]
fn burn_beyond_balance_is_rejected_unchanged() {
    let mut t = SimpleToken::new(admin());
    assert_eq!(t.mint(admin(), acct_a(), 40), Ok(()));
    assert_eq!(t.burn(acct_a(), 41), Err(Error::InsufficientBalance));
    assert_eq!(t.balance_of(acct_a()), 40);
    assert_eq!(t.total_supply(), 40);
}

#[test]
fn burn_zero_is_invalid_amount() {
    let mut t = SimpleToken::new(admin());
    assert_eq!(t.mint(admin(), acct_a(), 40), Ok(()));
    assert_eq!(t.burn(acct_a(), 0), Err(Error::InvalidAmount));
    assert_eq!(t.balance_of(acct_a()), 40);
}

#[test]
fn mint_then_burn_round_trips_supply_and_balance() {
    let mut t = SimpleToken::new(admin());
    assert_eq!(t.mint(admin(), acct_a(), 100), Ok(()));
    let supply_before = t.total_supply();
    let balance_before = t.balance_of(acct_a());
    assert_eq!(t.mint(admin(), acct_a(), 37), Ok(()));
    assert_eq!(t.burn(acct_a(), 37), Ok(()));
    assert_eq!(t.total_supply(), supply_before);
    assert_eq!(t.balance_of(acct_a()), balance_before);
}

#[test]
fn owner_is_fixed_at_construction() {
    let mut t = SimpleToken::new(admin());
    assert_eq!(t.get_owner(), admin());
    assert_eq!(t.mint(admin(), acct_a(), 5), Ok(()));
    assert_eq!(t.set_paused(admin(), true), Ok(()));
    assert_eq!(t.set_paused(admin(), false), Ok(()));
    assert_eq!(t.blacklist(admin(), acct_a(), true), Ok(()));
    assert_eq!(t.get_owner(), admin());
}
