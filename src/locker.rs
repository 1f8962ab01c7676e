//! The lock record, its lifecycle (create, claim fees, unlock) and the
//! authorization checks that guard each step.
//!
//! Each operation is a pure decision: it reads the supplied accounts and the
//! stored record, and returns either an error or the staged outcome (the new
//! record, the transfer to carry out and the notification to emit). The
//! caller carries out the transfer and only then commits the new record, so
//! a failed transfer leaves nothing changed.

use crate::address::{check_derived, is_derived, seeds_view, Key};
use crate::pool::{self, amm_of, get_pool_fees, pool_fees_result, RaydiumPool, AMM_INFO_LEN};
use vstd::prelude::*;

verus! {

/// Errors of the locker's operations.
#[derive(Debug, Clone, Copy, PartialEq, Eq, Structural)]
pub enum ErrorCode {
    /// The lock horizon has not been reached yet.
    LockNotExpired,
    /// The lock has already been unlocked.
    LockerUnlocked,
    /// The pool account is not owned by the pool program, or is not the pool
    /// bound to the lock.
    InvalidPoolAccount,
    /// Fee arithmetic overflowed, underflowed or divided by zero.
    CalculationError,
    /// The pool account's data is not a pool snapshot.
    MalformedPoolData,
    /// The amount to lock is zero.
    InvalidAmount,
    /// The lock duration is not positive.
    InvalidDuration,
    /// A lock already exists at the derived address.
    DuplicateLock,
    /// No lock exists at the supplied address.
    AccountNotInitialized,
    /// The caller did not sign, or is not the lock's owner.
    Unauthorized,
    /// The caller's token account is not theirs or holds another token.
    TokenAccountMismatch,
    /// A supplied address is not the one derived for this lock.
    AddressMismatch,
}

/// The persisted record of one lock.
#[derive(Debug, Clone, Copy)]
pub struct Locker {
    pub owner: Key,
    pub token_mint: Key,
    pub amount: u64,
    pub lock_start: i64,
    pub lock_end: i64,
    pub unlocked: bool,
    pub accumulated_fees: u64,
    pub last_fee_claim: i64,
    pub raydium_pool: Key,
    pub total_liquidity: u64,
}

impl Locker {
    /// Size of the stored record: an 8-byte type tag, then the fields.
    pub const LEN: usize = 8 + 32 + 32 + 8 + 8 + 8 + 1 + 8 + 8 + 32 + 8;
}

/// Notification of a new lock.
#[derive(Debug, Clone, Copy)]
pub struct LockerInitialized {
    pub owner: Key,
    pub token_mint: Key,
    pub amount: u64,
    pub lock_end: i64,
    pub raydium_pool: Key,
}

/// Notification of a fee payout.
#[derive(Debug, Clone, Copy)]
pub struct FeesClaimed {
    pub owner: Key,
    pub amount: u64,
    pub timestamp: i64,
    pub raydium_pool: Key,
}

/// Notification of the principal's return.
#[derive(Debug, Clone, Copy)]
pub struct TokensUnlocked {
    pub owner: Key,
    pub amount: u64,
    pub timestamp: i64,
}

/// A transfer for the token ledger to carry out: `amount` from `from` to
/// `to`, signed by `authority`.
#[derive(Debug, Clone, Copy)]
pub struct TokenTransfer {
    pub from: Key,
    pub to: Key,
    pub authority: Key,
    pub amount: u64,
}

/// A token account as supplied by the caller: its address, the wallet that
/// owns it and the token it holds.
#[derive(Debug, Clone, Copy)]
pub struct TokenAccount {
    pub address: Key,
    pub owner: Key,
    pub mint: Key,
}

/// The pool account as supplied by the caller: its address, the program that
/// owns it and its data.
#[derive(Debug, Clone)]
pub struct PoolAccount {
    pub key: Key,
    pub owner: Key,
    pub data: Vec<u8>,
}

/// The program identities the locker works with.
#[derive(Debug, Clone, Copy)]
pub struct LockerConfig {
    /// This locker program, under which lock addresses are derived.
    pub program_id: Key,
    /// The pool program that must own pool accounts.
    pub pool: RaydiumPool,
    /// The token ledger program.
    pub token_program: Key,
    /// The program under which associated token accounts are derived.
    pub associated_token_program: Key,
}

/// The locker's configuration and its stored records, keyed by address.
#[derive(Debug, Clone)]
pub struct LockerProgram {
    config: LockerConfig,
    lockers: Vec<(Key, Locker)>,
}

impl LockerProgram {
    /// The stored entries.
    pub closed spec fn entries(&self) -> Seq<(Key, Locker)> {
        self.lockers@
    }

    /// The configuration.
    pub closed spec fn cfg(&self) -> LockerConfig {
        self.config
    }

    /// The configuration.
    pub fn config(&self) -> (r: &LockerConfig)
        ensures
            *r == self.cfg(),
    {
        &self.config
    }

    /// No address is stored twice.
    pub open spec fn wf(&self) -> bool {
        forall|i: int, j: int|
            0 <= i < self.entries().len() && 0 <= j < self.entries().len()
                && #[trigger] self.entries()[i].0@ == #[trigger] self.entries()[j].0@ ==> i == j
    }

    /// Whether a record is stored at `address`.
    pub open spec fn has_record(&self, address: Seq<u8>) -> bool {
        exists|i: int| 0 <= i < self.entries().len() && #[trigger] self.entries()[i].0@ == address
    }

    /// The record stored at `address`.
    pub open spec fn record(&self, address: Seq<u8>) -> Locker {
        self.entries()[choose|i: int| 0 <= i < self.entries().len() && #[trigger] self.entries()[i].0@ == address].1
    }

    /// A locker with the given configuration and no records.
    pub fn new(config: LockerConfig) -> (r: LockerProgram)
        ensures
            r.wf(),
            r.cfg() == config,
            forall|a: Seq<u8>| !r.has_record(a),
    {
        let r = LockerProgram { config, lockers: Vec::new() };
        assert(r.entries().len() == 0);
        r
    }

    /// Position of the entry stored at `address`, if any.
    fn position(&self, address: &Key) -> (r: Option<usize>)
        ensures
            match r {
                Some(i) => i < self.entries().len() && self.entries()[i as int].0@ == address@,
                None => !self.has_record(address@),
            },
    {
        let mut i: usize = 0;
        while i < self.lockers.len()
            invariant
                0 <= i <= self.entries().len(),
                self.entries() == self.lockers@,
                forall|j: int| 0 <= j < i ==> self.entries()[j].0@ != address@,
            decreases self.lockers.len() - i,
        {
            if self.lockers[i].0.same_as(address) {
                return Some(i);
            }
            i = i + 1;
        }
        None
    }

    /// The record stored at `address`, if any.
    pub fn get(&self, address: &Key) -> (r: Option<Locker>)
        requires
            self.wf(),
        ensures
            r is Some <==> self.has_record(address@),
            r matches Some(l) ==> l == self.record(address@),
    {
        match self.position(address) {
            Some(i) => Some(self.lockers[i].1),
            None => None,
        }
    }

    /// Stores `locker` at `address`, replacing what was there.
    pub fn commit(&mut self, address: &Key, locker: Locker)
        requires
            old(self).wf(),
        ensures
            final(self).wf(),
            final(self).cfg() == old(self).cfg(),
            final(self).has_record(address@),
            final(self).record(address@) == locker,
            forall|a: Seq<u8>|
                a != address@ ==> (final(self).has_record(a) == #[trigger] old(self).has_record(a)
                    && (old(self).has_record(a) ==> final(self).record(a) == old(self).record(a))),
    {
        let ghost pre = *self;
        match self.position(address) {
            Some(i) => {
                self.lockers.set(i, (*address, locker));
                assert(self.entries()[i as int].0@ == address@);
            },
            None => {
                self.lockers.push((*address, locker));
                assert(self.entries()[pre.entries().len() as int].0@ == address@);
            },
        }
        assert forall|a: Seq<u8>| a != address@ implies (self.has_record(a) == #[trigger] pre.has_record(a)
            && (pre.has_record(a) ==> self.record(a) == pre.record(a))) by {
            if pre.has_record(a) {
                let j = choose|j: int| 0 <= j < pre.entries().len() && #[trigger] pre.entries()[j].0@ == a;
                assert(self.entries()[j] == pre.entries()[j]);
                assert(self.has_record(a));
                let k = choose|k: int| 0 <= k < self.entries().len() && #[trigger] self.entries()[k].0@ == a;
                assert(k == j);
            }
            if self.has_record(a) {
                let k = choose|k: int| 0 <= k < self.entries().len() && #[trigger] self.entries()[k].0@ == a;
                assert(k < pre.entries().len() && self.entries()[k] == pre.entries()[k]);
                assert(pre.has_record(a));
            }
        }
        assert(pre == *old(self));
    }
}

/// The prefix seed of every lock address: the bytes of "locker".
pub open spec fn locker_seed_prefix() -> Seq<u8> {
    seq![108u8, 111u8, 99u8, 107u8, 101u8, 114u8]
}

/// The seeds a lock's address is derived from.
pub open spec fn locker_seeds(owner: Seq<u8>, mint: Seq<u8>, unique_seed: Seq<u8>) -> Seq<Seq<u8>> {
    seq![locker_seed_prefix(), owner, mint, unique_seed]
}

/// Whether `address` is the lock address of `(owner, mint, unique_seed)`.
pub open spec fn is_locker_address(cfg: LockerConfig, owner: Seq<u8>, mint: Seq<u8>, unique_seed: Seq<u8>, address: Seq<u8>) -> bool {
    is_derived(locker_seeds(owner, mint, unique_seed), cfg.program_id@, address)
}

/// Whether `address` is the associated token account of `wallet` for `mint`.
pub open spec fn is_associated_account(cfg: LockerConfig, wallet: Seq<u8>, mint: Seq<u8>, address: Seq<u8>) -> bool {
    is_derived(seq![wallet, cfg.token_program@, mint], cfg.associated_token_program@, address)
}

/// Tells whether `address` is the lock address of `(owner, mint, unique_seed)`.
pub fn check_locker_address(cfg: &LockerConfig, owner: &Key, mint: &Key, unique_seed: &Key, address: &Key) -> (r: bool)
    ensures
        r == is_locker_address(*cfg, owner@, mint@, unique_seed@, address@),
{
    let mut seeds: Vec<Vec<u8>> = Vec::new();
    seeds.push(vec![108u8, 111u8, 99u8, 107u8, 101u8, 114u8]);
    seeds.push(owner.to_seed());
    seeds.push(mint.to_seed());
    seeds.push(unique_seed.to_seed());
    assert(seeds_view(seeds@) =~= locker_seeds(owner@, mint@, unique_seed@));
    check_derived(&seeds, &cfg.program_id, address)
}

/// Tells whether `address` is the associated token account of `wallet` for
/// `mint`.
pub fn check_associated_account(cfg: &LockerConfig, wallet: &Key, mint: &Key, address: &Key) -> (r: bool)
    ensures
        r == is_associated_account(*cfg, wallet@, mint@, address@),
{
    let mut seeds: Vec<Vec<u8>> = Vec::new();
    seeds.push(wallet.to_seed());
    seeds.push(cfg.token_program.to_seed());
    seeds.push(mint.to_seed());
    assert(seeds_view(seeds@) =~= seq![wallet@, cfg.token_program@, mint@]);
    check_derived(&seeds, &cfg.associated_token_program, address)
}

/// Accounts supplied to create a lock.
#[derive(Debug, Clone)]
pub struct InitializeLocker {
    /// Address of the new lock record.
    pub locker: Key,
    pub owner: Key,
    /// Whether the transaction carries the owner's signature.
    pub owner_is_signer: bool,
    pub token_mint: Key,
    /// The account the deposit is taken from.
    pub owner_token_account: TokenAccount,
    /// The lock's vault.
    pub locker_token_account: Key,
    pub raydium_pool: PoolAccount,
    pub unique_seed: Key,
}

/// Accounts supplied to claim fees.
#[derive(Debug, Clone)]
pub struct ClaimFees {
    pub locker: Key,
    pub owner: Key,
    pub owner_is_signer: bool,
    /// The account the fees are paid to.
    pub owner_token_account: TokenAccount,
    /// The lock's fee account, which the fees are paid from.
    pub fee_token_account: Key,
    pub raydium_pool: PoolAccount,
    pub unique_seed: Key,
}

/// Accounts supplied to unlock.
#[derive(Debug, Clone)]
pub struct UnlockTokens {
    pub locker: Key,
    pub owner: Key,
    pub owner_is_signer: bool,
    /// The account the principal is returned to.
    pub owner_token_account: TokenAccount,
    /// The lock's vault.
    pub locker_token_account: Key,
    pub unique_seed: Key,
}

/// A staged creation: the record to store at the lock address, the deposit
/// to carry out, and the notification.
#[derive(Debug, Clone, Copy)]
pub struct LockerCreation {
    pub locker: Locker,
    pub deposit: TokenTransfer,
    pub event: LockerInitialized,
}

/// A staged fee claim: the updated record, the payout and the notification.
#[derive(Debug, Clone, Copy)]
pub struct FeeClaim {
    pub locker: Locker,
    pub payout: TokenTransfer,
    pub event: FeesClaimed,
}

/// A staged unlock: the updated record, the return of the principal and the
/// notification.
#[derive(Debug, Clone, Copy)]
pub struct Release {
    pub locker: Locker,
    pub payout: TokenTransfer,
    pub event: TokensUnlocked,
}

/// The record a creation yields, or the first check it fails.
pub open spec fn initialize_result(p: LockerProgram, a: InitializeLocker, now: i64, lock_duration: i64, amount: u64) -> Result<Locker, ErrorCode> {
    if !a.owner_is_signer {
        Err(ErrorCode::Unauthorized)
    } else if amount == 0 {
        Err(ErrorCode::InvalidAmount)
    } else if lock_duration <= 0 {
        Err(ErrorCode::InvalidDuration)
    } else if a.owner_token_account.owner@ != a.owner@ || a.owner_token_account.mint@ != a.token_mint@ {
        Err(ErrorCode::TokenAccountMismatch)
    } else if !is_locker_address(p.cfg(), a.owner@, a.token_mint@, a.unique_seed@, a.locker@) {
        Err(ErrorCode::AddressMismatch)
    } else if p.has_record(a.locker@) {
        Err(ErrorCode::DuplicateLock)
    } else if !is_associated_account(p.cfg(), a.locker@, a.token_mint@, a.locker_token_account@) {
        Err(ErrorCode::AddressMismatch)
    } else if a.raydium_pool.owner@ != p.cfg().pool.program_id@ {
        Err(ErrorCode::InvalidPoolAccount)
    } else if now + lock_duration > i64::MAX {
        Err(ErrorCode::CalculationError)
    } else if a.raydium_pool.data@.len() != AMM_INFO_LEN {
        Err(ErrorCode::MalformedPoolData)
    } else {
        Ok(Locker {
            owner: a.owner,
            token_mint: a.token_mint,
            amount,
            lock_start: now,
            lock_end: (now + lock_duration) as i64,
            unlocked: false,
            accumulated_fees: 0,
            last_fee_claim: now,
            raydium_pool: a.raydium_pool.key,
            total_liquidity: amm_of(a.raydium_pool.data@).pool_total_deposit_coin,
        })
    }
}

/// Creates a lock of `amount` tokens for `lock_duration` seconds from
/// `current_time`. On success nothing is stored yet: the caller carries out
/// the deposit and then commits the record at `accounts.locker`.
pub fn initialize_locker(
    program: &LockerProgram,
    accounts: &InitializeLocker,
    current_time: i64,
    lock_duration: i64,
    amount: u64,
) -> (r: Result<LockerCreation, ErrorCode>)
    requires
        program.wf(),
    ensures
        match r {
            Ok(o) => initialize_result(*program, *accounts, current_time, lock_duration, amount) == Ok::<Locker, ErrorCode>(o.locker)
                && o.deposit == (TokenTransfer {
                    from: accounts.owner_token_account.address,
                    to: accounts.locker_token_account,
                    authority: accounts.owner,
                    amount,
                }) && o.event == (LockerInitialized {
                    owner: accounts.owner,
                    token_mint: accounts.token_mint,
                    amount,
                    lock_end: o.locker.lock_end,
                    raydium_pool: accounts.raydium_pool.key,
                }),
            Err(e) => initialize_result(*program, *accounts, current_time, lock_duration, amount) == Err::<Locker, ErrorCode>(e),
        },
        r matches Ok(o) ==> o.locker.lock_end == o.locker.lock_start + lock_duration && !o.locker.unlocked
            && o.locker.lock_start == current_time && o.locker.last_fee_claim == current_time
            && o.locker.accumulated_fees == 0,
{
    let cfg = program.config();
    if !accounts.owner_is_signer {
        return Err(ErrorCode::Unauthorized);
    }
    if amount == 0 {
        return Err(ErrorCode::InvalidAmount);
    }
    if lock_duration <= 0 {
        return Err(ErrorCode::InvalidDuration);
    }
    if !accounts.owner_token_account.owner.same_as(&accounts.owner)
        || !accounts.owner_token_account.mint.same_as(&accounts.token_mint) {
        return Err(ErrorCode::TokenAccountMismatch);
    }
    if !check_locker_address(cfg, &accounts.owner, &accounts.token_mint, &accounts.unique_seed, &accounts.locker) {
        return Err(ErrorCode::AddressMismatch);
    }
    if program.get(&accounts.locker).is_some() {
        return Err(ErrorCode::DuplicateLock);
    }
    if !check_associated_account(cfg, &accounts.locker, &accounts.token_mint, &accounts.locker_token_account) {
        return Err(ErrorCode::AddressMismatch);
    }
    if !accounts.raydium_pool.owner.same_as(&cfg.pool.id()) {
        return Err(ErrorCode::InvalidPoolAccount);
    }
    let lock_end: i64 = match current_time.checked_add(lock_duration) {
        Some(e) => e,
        None => return Err(ErrorCode::CalculationError),
    };
    let amm = match pool::AmmInfo::try_from_slice(accounts.raydium_pool.data.as_slice()) {
        Ok(a) => a,
        Err(_) => return Err(ErrorCode::MalformedPoolData),
    };
    let locker = Locker {
        owner: accounts.owner,
        token_mint: accounts.token_mint,
        amount,
        lock_start: current_time,
        lock_end,
        unlocked: false,
        accumulated_fees: 0,
        last_fee_claim: current_time,
        raydium_pool: accounts.raydium_pool.key,
        total_liquidity: amm.pool_total_deposit_coin,
    };
    let deposit = TokenTransfer {
        from: accounts.owner_token_account.address,
        to: accounts.locker_token_account,
        authority: accounts.owner,
        amount,
    };
    let event = LockerInitialized {
        owner: accounts.owner,
        token_mint: accounts.token_mint,
        amount,
        lock_end,
        raydium_pool: accounts.raydium_pool.key,
    };
    Ok(LockerCreation { locker, deposit, event })
}

/// The record a fee claim yields, or the first check it fails.
pub open spec fn claim_result(p: LockerProgram, a: ClaimFees, now: i64) -> Result<Locker, ErrorCode> {
    if !p.has_record(a.locker@) {
        Err(ErrorCode::AccountNotInitialized)
    } else {
        let l = p.record(a.locker@);
        if l.unlocked {
            Err(ErrorCode::LockerUnlocked)
        } else if !a.owner_is_signer || l.owner@ != a.owner@ {
            Err(ErrorCode::Unauthorized)
        } else if !is_locker_address(p.cfg(), a.owner@, l.token_mint@, a.unique_seed@, a.locker@) {
            Err(ErrorCode::AddressMismatch)
        } else if a.owner_token_account.owner@ != a.owner@ || a.owner_token_account.mint@ != l.token_mint@ {
            Err(ErrorCode::TokenAccountMismatch)
        } else if !is_associated_account(p.cfg(), a.locker@, l.token_mint@, a.fee_token_account@) {
            Err(ErrorCode::AddressMismatch)
        } else if a.raydium_pool.key@ != l.raydium_pool@ {
            Err(ErrorCode::InvalidPoolAccount)
        } else {
            match pool_fees_result(a.raydium_pool.data@, now - l.last_fee_claim, l.amount, l.total_liquidity) {
                Err(pool::ErrorCode::MalformedPoolData) => Err(ErrorCode::MalformedPoolData),
                Err(pool::ErrorCode::CalculationError) => Err(ErrorCode::CalculationError),
                Ok(fees) => if l.accumulated_fees + fees > u64::MAX {
                    Err(ErrorCode::CalculationError)
                } else {
                    Ok(Locker { accumulated_fees: (l.accumulated_fees + fees) as u64, last_fee_claim: now, ..l })
                },
            }
        }
    }
}

/// Claims the fees accrued since the last claim. On success nothing is
/// stored yet: the caller carries out the payout and then commits the
/// updated record at `accounts.locker`.
pub fn claim_fees(program: &LockerProgram, accounts: &ClaimFees, current_time: i64) -> (r: Result<FeeClaim, ErrorCode>)
    requires
        program.wf(),
    ensures
        match r {
            Ok(o) => claim_result(*program, *accounts, current_time) == Ok::<Locker, ErrorCode>(o.locker)
                && o.payout == (TokenTransfer {
                    from: accounts.fee_token_account,
                    to: accounts.owner_token_account.address,
                    authority: accounts.locker,
                    amount: (o.locker.accumulated_fees - program.record(accounts.locker@).accumulated_fees) as u64,
                }) && o.event == (FeesClaimed {
                    owner: accounts.owner,
                    amount: o.payout.amount,
                    timestamp: current_time,
                    raydium_pool: accounts.raydium_pool.key,
                }),
            Err(e) => claim_result(*program, *accounts, current_time) == Err::<Locker, ErrorCode>(e),
        },
{
    let cfg = program.config();
    let l = match program.get(&accounts.locker) {
        Some(l) => l,
        None => return Err(ErrorCode::AccountNotInitialized),
    };
    if l.unlocked {
        return Err(ErrorCode::LockerUnlocked);
    }
    if !accounts.owner_is_signer || !l.owner.same_as(&accounts.owner) {
        return Err(ErrorCode::Unauthorized);
    }
    if !check_locker_address(cfg, &accounts.owner, &l.token_mint, &accounts.unique_seed, &accounts.locker) {
        return Err(ErrorCode::AddressMismatch);
    }
    if !accounts.owner_token_account.owner.same_as(&accounts.owner)
        || !accounts.owner_token_account.mint.same_as(&l.token_mint) {
        return Err(ErrorCode::TokenAccountMismatch);
    }
    if !check_associated_account(cfg, &accounts.locker, &l.token_mint, &accounts.fee_token_account) {
        return Err(ErrorCode::AddressMismatch);
    }
    if !accounts.raydium_pool.key.same_as(&l.raydium_pool) {
        return Err(ErrorCode::InvalidPoolAccount);
    }
    let fees = match get_pool_fees(
        accounts.raydium_pool.data.as_slice(),
        l.last_fee_claim,
        current_time,
        l.amount,
        l.total_liquidity,
    ) {
        Ok(f) => f,
        Err(pool::ErrorCode::MalformedPoolData) => return Err(ErrorCode::MalformedPoolData),
        Err(pool::ErrorCode::CalculationError) => return Err(ErrorCode::CalculationError),
    };
    let accumulated_fees: u64 = match l.accumulated_fees.checked_add(fees) {
        Some(t) => t,
        None => return Err(ErrorCode::CalculationError),
    };
    let locker = Locker { accumulated_fees, last_fee_claim: current_time, ..l };
    let payout = TokenTransfer {
        from: accounts.fee_token_account,
        to: accounts.owner_token_account.address,
        authority: accounts.locker,
        amount: fees,
    };
    let event = FeesClaimed {
        owner: accounts.owner,
        amount: fees,
        timestamp: current_time,
        raydium_pool: accounts.raydium_pool.key,
    };
    Ok(FeeClaim { locker, payout, event })
}

/// The record an unlock yields, or the first check it fails.
pub open spec fn unlock_result(p: LockerProgram, a: UnlockTokens, now: i64) -> Result<Locker, ErrorCode> {
    if !p.has_record(a.locker@) {
        Err(ErrorCode::AccountNotInitialized)
    } else {
        let l = p.record(a.locker@);
        if l.unlocked {
            Err(ErrorCode::LockerUnlocked)
        } else if !a.owner_is_signer || l.owner@ != a.owner@ {
            Err(ErrorCode::Unauthorized)
        } else if !is_locker_address(p.cfg(), a.owner@, l.token_mint@, a.unique_seed@, a.locker@) {
            Err(ErrorCode::AddressMismatch)
        } else if a.owner_token_account.owner@ != a.owner@ || a.owner_token_account.mint@ != l.token_mint@ {
            Err(ErrorCode::TokenAccountMismatch)
        } else if !is_associated_account(p.cfg(), a.locker@, l.token_mint@, a.locker_token_account@) {
            Err(ErrorCode::AddressMismatch)
        } else if now < l.lock_end {
            Err(ErrorCode::LockNotExpired)
        } else {
            Ok(Locker { unlocked: true, ..l })
        }
    }
}

/// Whether the accounts supplied to unlock the lock stored at `a.locker`
/// pass every check of ownership and address derivation.
pub open spec fn unlock_authorized(p: LockerProgram, a: UnlockTokens) -> bool {
    let l = p.record(a.locker@);
    &&& a.owner_is_signer
    &&& l.owner@ == a.owner@
    &&& is_locker_address(p.cfg(), a.owner@, l.token_mint@, a.unique_seed@, a.locker@)
    &&& a.owner_token_account.owner@ == a.owner@
    &&& a.owner_token_account.mint@ == l.token_mint@
    &&& is_associated_account(p.cfg(), a.locker@, l.token_mint@, a.locker_token_account@)
}

/// Returns the locked principal once the lock horizon has passed. On success
/// nothing is stored yet: the caller carries out the return and then commits
/// the updated record at `accounts.locker`.
pub fn unlock_tokens(program: &LockerProgram, accounts: &UnlockTokens, current_time: i64) -> (r: Result<Release, ErrorCode>)
    requires
        program.wf(),
    ensures
        match r {
            Ok(o) => unlock_result(*program, *accounts, current_time) == Ok::<Locker, ErrorCode>(o.locker)
                && o.payout == (TokenTransfer {
                    from: accounts.locker_token_account,
                    to: accounts.owner_token_account.address,
                    authority: accounts.locker,
                    amount: o.locker.amount,
                }) && o.event == (TokensUnlocked {
                    owner: accounts.owner,
                    amount: o.locker.amount,
                    timestamp: current_time,
                }),
            Err(e) => unlock_result(*program, *accounts, current_time) == Err::<Locker, ErrorCode>(e),
        },
{
    let cfg = program.config();
    let l = match program.get(&accounts.locker) {
        Some(l) => l,
        None => return Err(ErrorCode::AccountNotInitialized),
    };
    if l.unlocked {
        return Err(ErrorCode::LockerUnlocked);
    }
    if !accounts.owner_is_signer || !l.owner.same_as(&accounts.owner) {
        return Err(ErrorCode::Unauthorized);
    }
    if !check_locker_address(cfg, &accounts.owner, &l.token_mint, &accounts.unique_seed, &accounts.locker) {
        return Err(ErrorCode::AddressMismatch);
    }
    if !accounts.owner_token_account.owner.same_as(&accounts.owner)
        || !accounts.owner_token_account.mint.same_as(&l.token_mint) {
        return Err(ErrorCode::TokenAccountMismatch);
    }
    if !check_associated_account(cfg, &accounts.locker, &l.token_mint, &accounts.locker_token_account) {
        return Err(ErrorCode::AddressMismatch);
    }
    if current_time < l.lock_end {
        return Err(ErrorCode::LockNotExpired);
    }
    let locker = Locker { unlocked: true, ..l };
    let payout = TokenTransfer {
        from: accounts.locker_token_account,
        to: accounts.owner_token_account.address,
        authority: accounts.locker,
        amount: l.amount,
    };
    let event = TokensUnlocked { owner: accounts.owner, amount: l.amount, timestamp: current_time };
    Ok(Release { locker, payout, event })
}

/// The unlock time gate is inclusive: for a stored, still locked record and
/// accounts that pass every authorization check, unlocking before `lock_end`
/// fails with `LockNotExpired`, and unlocking exactly at `lock_end` succeeds.
pub proof fn lemma_unlock_time_gate(p: LockerProgram, a: UnlockTokens, now: i64)
    requires
        p.has_record(a.locker@),
        !p.record(a.locker@).unlocked,
        unlock_authorized(p, a),
    ensures
        now < p.record(a.locker@).lock_end ==> unlock_result(p, a, now) == Err::<Locker, ErrorCode>(ErrorCode::LockNotExpired),
        now == p.record(a.locker@).lock_end ==> unlock_result(p, a, now) is Ok,
{
}

/// Unlocking happens at most once: once the record an unlock yields is
/// committed, every later unlock of that address fails with `LockerUnlocked`,
/// whatever accounts and time it is given, so no second return is staged.
pub proof fn lemma_unlock_once(
    p: LockerProgram,
    a: UnlockTokens,
    now: i64,
    committed: LockerProgram,
    b: UnlockTokens,
    later: i64,
)
    requires
        unlock_result(p, a, now) is Ok,
        committed.has_record(a.locker@),
        committed.record(a.locker@) == unlock_result(p, a, now)->Ok_0,
        b.locker@ == a.locker@,
    ensures
        unlock_result(committed, b, later) == Err::<Locker, ErrorCode>(ErrorCode::LockerUnlocked),
{
}

/// A claim against an unlocked record fails with `LockerUnlocked`, whatever
/// the other accounts and the time.
pub proof fn lemma_claim_after_unlock(p: LockerProgram, a: ClaimFees, now: i64)
    requires
        p.has_record(a.locker@),
        p.record(a.locker@).unlocked,
    ensures
        claim_result(p, a, now) == Err::<Locker, ErrorCode>(ErrorCode::LockerUnlocked),
{
}

/// Once a creation's record is committed, creating again with the same
/// accounts (the same owner, token and unique seed) and a valid amount and
/// duration fails with `DuplicateLock`.
pub proof fn lemma_duplicate_creation(
    p: LockerProgram,
    a: InitializeLocker,
    now: i64,
    lock_duration: i64,
    amount: u64,
    committed: LockerProgram,
    later: i64,
    later_duration: i64,
    later_amount: u64,
)
    requires
        initialize_result(p, a, now, lock_duration, amount) is Ok,
        committed.cfg() == p.cfg(),
        committed.has_record(a.locker@),
        later_amount > 0,
        later_duration > 0,
    ensures
        initialize_result(committed, a, later, later_duration, later_amount) == Err::<Locker, ErrorCode>(ErrorCode::DuplicateLock),
{
}

/// A successful claim only moves the accrual window forward and only adds to
/// the fees paid; every other field of the record is kept.
pub proof fn lemma_claim_moves_forward(p: LockerProgram, a: ClaimFees, now: i64)
    requires
        claim_result(p, a, now) is Ok,
    ensures
        ({
            let before = p.record(a.locker@);
            let after = claim_result(p, a, now)->Ok_0;
            &&& before.last_fee_claim <= after.last_fee_claim == now
            &&& before.accumulated_fees <= after.accumulated_fees
            &&& after == (Locker { accumulated_fees: after.accumulated_fees, last_fee_claim: now, ..before })
        }),
{
}

} // verus!
