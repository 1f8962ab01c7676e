use anchor_lang::prelude::Pubkey;
use solliq_locker::address::Key;
use solliq_locker::locker::{
    claim_fees, initialize_locker, unlock_tokens, ClaimFees, ErrorCode, InitializeLocker, LockerConfig,
    LockerProgram, PoolAccount, TokenAccount, UnlockTokens,
};
use solliq_locker::pool::{RaydiumPool, AMM_INFO_LEN};

const START: i64 = 1_700_000_000;
const DURATION: i64 = 30 * 86400;

fn key(b: u8) -> Key {
    Key::new([b; 32])
}

fn pk(k: &Key) -> Pubkey {
    Pubkey::new_from_array(k.bytes)
}

fn config() -> LockerConfig {
    LockerConfig {
        program_id: key(7),
        pool: RaydiumPool { program_id: key(9) },
        token_program: key(11),
        associated_token_program: key(13),
    }
}

fn locker_address(owner: &Key, mint: &Key, seed: &Key) -> Key {
    let (a, _) = Pubkey::find_program_address(
        &[b"locker".as_ref(), owner.bytes.as_ref(), mint.bytes.as_ref(), seed.bytes.as_ref()],
        &pk(&config().program_id),
    );
    Key::new(a.to_bytes())
}

fn vault_address(locker: &Key, mint: &Key) -> Key {
    let cfg = config();
    let (a, _) = Pubkey::find_program_address(
        &[locker.bytes.as_ref(), cfg.token_program.bytes.as_ref(), mint.bytes.as_ref()],
        &pk(&cfg.associated_token_program),
    );
    Key::new(a.to_bytes())
}

fn pool_data(total_deposit: u64, fee_a: u64, fee_b: u64) -> Vec<u8> {
    let mut data = vec![0u8; AMM_INFO_LEN];
    data[8 * 29..8 * 30].copy_from_slice(&total_deposit.to_le_bytes());
    data[8 * 32..8 * 33].copy_from_slice(&fee_a.to_le_bytes());
    data[8 * 35..8 * 36].copy_from_slice(&fee_b.to_le_bytes());
    data
}

fn pool(key_byte: u8, fee_a: u64, fee_b: u64) -> PoolAccount {
    PoolAccount { key: key(key_byte), owner: key(9), data: pool_data(100_000, fee_a, fee_b) }
}

fn init_accounts(seed: u8) -> InitializeLocker {
    let owner = key(1);
    let mint = key(2);
    let locker = locker_address(&owner, &mint, &key(seed));
    InitializeLocker {
        locker,
        owner,
        owner_is_signer: true,
        token_mint: mint,
        owner_token_account: TokenAccount { address: key(3), owner, mint },
        locker_token_account: vault_address(&locker, &mint),
        raydium_pool: pool(5, 500, 300),
        unique_seed: key(seed),
    }
}

fn claim_accounts(init: &InitializeLocker) -> ClaimFees {
    ClaimFees {
        locker: init.locker,
        owner: init.owner,
        owner_is_signer: true,
        owner_token_account: init.owner_token_account,
        fee_token_account: init.locker_token_account,
        raydium_pool: pool(5, 500, 300),
        unique_seed: init.unique_seed,
    }
}

fn unlock_accounts(init: &InitializeLocker) -> UnlockTokens {
    UnlockTokens {
        locker: init.locker,
        owner: init.owner,
        owner_is_signer: true,
        owner_token_account: init.owner_token_account,
        locker_token_account: init.locker_token_account,
        unique_seed: init.unique_seed,
    }
}

fn created(seed: u8) -> (LockerProgram, InitializeLocker) {
    let mut program = LockerProgram::new(config());
    let accounts = init_accounts(seed);
    let creation = initialize_locker(&program, &accounts, START, DURATION, 1000).unwrap();
    program.commit(&accounts.locker, creation.locker);
    (program, accounts)
}

#[test]
fn creation_sets_up_an_active_lock() {
    let program = LockerProgram::new(config());
    let accounts = init_accounts(4);
    let creation = initialize_locker(&program, &accounts, START, DURATION, 1000).unwrap();
    let l = creation.locker;
    assert_eq!(l.owner, key(1));
    assert_eq!(l.token_mint, key(2));
    assert_eq!(l.amount, 1000);
    assert_eq!(l.lock_start, START);
    assert_eq!(l.lock_end, START + DURATION);
    assert!(!l.unlocked);
    assert_eq!(l.accumulated_fees, 0);
    assert_eq!(l.last_fee_claim, START);
    assert_eq!(l.raydium_pool, key(5));
    assert_eq!(l.total_liquidity, 100_000);
    assert_eq!(creation.deposit.from, key(3));
    assert_eq!(creation.deposit.to, accounts.locker_token_account);
    assert_eq!(creation.deposit.authority, key(1));
    assert_eq!(creation.deposit.amount, 1000);
    assert_eq!(creation.event.lock_end, START + DURATION);
    assert!(program.get(&accounts.locker).is_none());
}

#[test]
fn second_creation_with_same_seed_is_a_duplicate() {
    let (program, accounts) = created(4);
    assert_eq!(
        initialize_locker(&program, &accounts, START + 5, DURATION, 2000).unwrap_err(),
        ErrorCode::DuplicateLock
    );
    assert!(initialize_locker(&program, &init_accounts(6), START, DURATION, 1000).is_ok());
}

#[test]
fn creation_validation_errors() {
    let program = LockerProgram::new(config());
    let mut a = init_accounts(4);
    a.owner_is_signer = false;
    assert_eq!(initialize_locker(&program, &a, START, DURATION, 1000).unwrap_err(), ErrorCode::Unauthorized);
    let a = init_accounts(4);
    assert_eq!(initialize_locker(&program, &a, START, DURATION, 0).unwrap_err(), ErrorCode::InvalidAmount);
    assert_eq!(initialize_locker(&program, &a, START, 0, 1000).unwrap_err(), ErrorCode::InvalidDuration);
    assert_eq!(initialize_locker(&program, &a, START, -1, 1000).unwrap_err(), ErrorCode::InvalidDuration);
    let mut b = init_accounts(4);
    b.owner_token_account.mint = key(99);
    assert_eq!(initialize_locker(&program, &b, START, DURATION, 1000).unwrap_err(), ErrorCode::TokenAccountMismatch);
    let mut c = init_accounts(4);
    c.locker = key(42);
    assert_eq!(initialize_locker(&program, &c, START, DURATION, 1000).unwrap_err(), ErrorCode::AddressMismatch);
    let mut d = init_accounts(4);
    d.locker_token_account = key(42);
    assert_eq!(initialize_locker(&program, &d, START, DURATION, 1000).unwrap_err(), ErrorCode::AddressMismatch);
    let mut e = init_accounts(4);
    e.raydium_pool.owner = key(10);
    assert_eq!(initialize_locker(&program, &e, START, DURATION, 1000).unwrap_err(), ErrorCode::InvalidPoolAccount);
    assert_eq!(initialize_locker(&program, &a, i64::MAX - 10, DURATION, 1000).unwrap_err(), ErrorCode::CalculationError);
    let mut f = init_accounts(4);
    f.raydium_pool.data.pop();
    assert_eq!(initialize_locker(&program, &f, START, DURATION, 1000).unwrap_err(), ErrorCode::MalformedPoolData);
}

#[test]
fn claim_pays_share_for_elapsed_window() {
    let (mut program, init) = created(4);
    let accounts = claim_accounts(&init);
    let claim = claim_fees(&program, &accounts, START + 86400).unwrap();
    assert_eq!(claim.payout.amount, 8);
    assert_eq!(claim.payout.from, init.locker_token_account);
    assert_eq!(claim.payout.to, key(3));
    assert_eq!(claim.payout.authority, init.locker);
    assert_eq!(claim.event.amount, 8);
    assert_eq!(claim.event.timestamp, START + 86400);
    assert_eq!(claim.locker.accumulated_fees, 8);
    assert_eq!(claim.locker.last_fee_claim, START + 86400);
    program.commit(&init.locker, claim.locker);
    let again = claim_fees(&program, &accounts, START + 2 * 86400).unwrap();
    assert_eq!(again.payout.amount, 8);
    assert_eq!(again.locker.accumulated_fees, 16);
    let same_time = claim_fees(&program, &accounts, START + 86400).unwrap();
    assert_eq!(same_time.payout.amount, 0);
}

#[test]
fn claim_with_another_pool_fails_and_changes_nothing() {
    let (program, init) = created(4);
    let mut accounts = claim_accounts(&init);
    accounts.raydium_pool = pool(8, 500, 300);
    assert_eq!(claim_fees(&program, &accounts, START + 86400).unwrap_err(), ErrorCode::InvalidPoolAccount);
    let stored = program.get(&init.locker).unwrap();
    assert_eq!(stored.accumulated_fees, 0);
    assert_eq!(stored.last_fee_claim, START);
}

#[test]
fn claim_validation_errors() {
    let (program, init) = created(4);
    let mut a = claim_accounts(&init);
    a.locker = locker_address(&key(1), &key(2), &key(77));
    assert_eq!(claim_fees(&program, &a, START + 10).unwrap_err(), ErrorCode::AccountNotInitialized);
    let mut b = claim_accounts(&init);
    b.owner = key(50);
    assert_eq!(claim_fees(&program, &b, START + 10).unwrap_err(), ErrorCode::Unauthorized);
    let mut c = claim_accounts(&init);
    c.unique_seed = key(77);
    assert_eq!(claim_fees(&program, &c, START + 10).unwrap_err(), ErrorCode::AddressMismatch);
    let mut d = claim_accounts(&init);
    d.owner_token_account.owner = key(50);
    assert_eq!(claim_fees(&program, &d, START + 10).unwrap_err(), ErrorCode::TokenAccountMismatch);
    let mut e = claim_accounts(&init);
    e.fee_token_account = key(50);
    assert_eq!(claim_fees(&program, &e, START + 10).unwrap_err(), ErrorCode::AddressMismatch);
    let mut f = claim_accounts(&init);
    f.raydium_pool.data.truncate(10);
    assert_eq!(claim_fees(&program, &f, START + 10).unwrap_err(), ErrorCode::MalformedPoolData);
    let g = claim_accounts(&init);
    assert_eq!(claim_fees(&program, &g, START - 1).unwrap_err(), ErrorCode::CalculationError);
}

#[test]
fn unlock_is_gated_by_lock_end() {
    let (program, init) = created(4);
    let accounts = unlock_accounts(&init);
    assert_eq!(unlock_tokens(&program, &accounts, START).unwrap_err(), ErrorCode::LockNotExpired);
    assert_eq!(unlock_tokens(&program, &accounts, START + DURATION - 1).unwrap_err(), ErrorCode::LockNotExpired);
    let release = unlock_tokens(&program, &accounts, START + DURATION).unwrap();
    assert!(release.locker.unlocked);
    assert_eq!(release.payout.amount, 1000);
    assert_eq!(release.payout.from, init.locker_token_account);
    assert_eq!(release.payout.to, key(3));
    assert_eq!(release.payout.authority, init.locker);
    assert_eq!(release.event.amount, 1000);
}

#[test]
fn second_unlock_fails() {
    let (mut program, init) = created(4);
    let accounts = unlock_accounts(&init);
    let release = unlock_tokens(&program, &accounts, START + DURATION).unwrap();
    program.commit(&init.locker, release.locker);
    assert_eq!(unlock_tokens(&program, &accounts, START + DURATION + 1).unwrap_err(), ErrorCode::LockerUnlocked);
}

#[test]
fn claim_after_unlock_fails() {
    let (mut program, init) = created(4);
    let release = unlock_tokens(&program, &unlock_accounts(&init), START + DURATION).unwrap();
    program.commit(&init.locker, release.locker);
    let mut accounts = claim_accounts(&init);
    assert_eq!(claim_fees(&program, &accounts, START + DURATION + 5).unwrap_err(), ErrorCode::LockerUnlocked);
    accounts.owner_is_signer = false;
    accounts.raydium_pool = pool(8, 1, 1);
    assert_eq!(claim_fees(&program, &accounts, START).unwrap_err(), ErrorCode::LockerUnlocked);
}

#[test]
fn unlock_validation_errors() {
    let (program, init) = created(4);
    let mut a = unlock_accounts(&init);
    a.owner_is_signer = false;
    assert_eq!(unlock_tokens(&program, &a, START + DURATION).unwrap_err(), ErrorCode::Unauthorized);
    let mut b = unlock_accounts(&init);
    b.locker_token_account = key(60);
    assert_eq!(unlock_tokens(&program, &b, START + DURATION).unwrap_err(), ErrorCode::AddressMismatch);
    let mut c = unlock_accounts(&init);
    c.locker = key(60);
    assert_eq!(unlock_tokens(&program, &c, START + DURATION).unwrap_err(), ErrorCode::AccountNotInitialized);
}

#[test]
fn key_equality_compares_bytes() {
    let mut bytes = [4u8; 32];
    assert!(Key::new(bytes).same_as(&key(4)));
    bytes[31] = 5;
    assert!(!Key::new(bytes).same_as(&key(4)));
    assert_eq!(key(4).to_seed(), vec![4u8; 32]);
}

#[test]
fn record_size_covers_tag_and_fields() {
    assert_eq!(solliq_locker::locker::Locker::LEN, 153);
}

#[test]
fn derived_address_check_matches_the_ledger() {
    let cfg = config();
    let seeds = vec![b"locker".to_vec(), vec![1u8; 32], vec![2u8; 32], vec![4u8; 32]];
    let expected = locker_address(&key(1), &key(2), &key(4));
    assert!(solliq_locker::address::check_derived(&seeds, &cfg.program_id, &expected));
    assert!(!solliq_locker::address::check_derived(&seeds, &cfg.program_id, &cfg.program_id));
    assert!(!solliq_locker::address::check_derived(&seeds, &cfg.program_id, &key(1)));
    assert!(solliq_locker::locker::check_locker_address(&cfg, &key(1), &key(2), &key(4), &expected));
    assert!(!solliq_locker::locker::check_locker_address(&cfg, &key(1), &key(2), &key(5), &expected));
    let vault = vault_address(&expected, &key(2));
    assert!(solliq_locker::locker::check_associated_account(&cfg, &expected, &key(2), &vault));
    assert!(!solliq_locker::locker::check_associated_account(&cfg, &key(2), &expected, &vault));
}
