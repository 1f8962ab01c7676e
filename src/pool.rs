//! Decoding of the external pool's counter snapshot, and the fee accrual
//! arithmetic built on it.

use vstd::prelude::*;

verus! {

/// Number of seconds in the accrual period the pool counters are scaled to.
pub const SECONDS_PER_DAY: u64 = 86400;

/// Exact byte length of a pool snapshot.
pub const AMM_INFO_LEN: usize = 288;

/// Errors of the pool reader and the fee calculator.
#[derive(Debug, Clone, Copy, PartialEq, Eq, Structural)]
pub enum ErrorCode {
    /// An arithmetic step overflowed, underflowed or divided by zero.
    CalculationError,
    /// The snapshot does not have the expected length.
    MalformedPoolData,
}

/// The little-endian `u64` stored at byte `off` of `s`.
pub open spec fn le_u64_at(s: Seq<u8>, off: int) -> int {
    s[off] as int
        + s[off + 1] as int * 0x100
        + s[off + 2] as int * 0x1_0000
        + s[off + 3] as int * 0x100_0000
        + s[off + 4] as int * 0x1_0000_0000
        + s[off + 5] as int * 0x100_0000_0000
        + s[off + 6] as int * 0x1_0000_0000_0000
        + s[off + 7] as int * 0x100_0000_0000_0000
}

/// The `k`-th counter of a snapshot.
pub open spec fn word_at(s: Seq<u8>, k: int) -> int {
    le_u64_at(s, 8 * k)
}

/// Reads the little-endian `u64` at byte `off` of `data`.
pub fn read_u64_le(data: &[u8], off: usize) -> (r: u64)
    requires
        off + 8 <= data@.len(),
    ensures
        r as int == le_u64_at(data@, off as int),
{
    (data[off] as u64)
        + (data[off + 1] as u64) * 0x100
        + (data[off + 2] as u64) * 0x1_0000
        + (data[off + 3] as u64) * 0x100_0000
        + (data[off + 4] as u64) * 0x1_0000_0000
        + (data[off + 5] as u64) * 0x100_0000_0000
        + (data[off + 6] as u64) * 0x1_0000_0000_0000
        + (data[off + 7] as u64) * 0x100_0000_0000_0000
}

/// Pool marker carrying the identifier of the external pool program that
/// must own every pool account this library accepts.
#[derive(Debug, Clone, Copy)]
pub struct RaydiumPool {
    pub program_id: crate::address::Key,
}

impl RaydiumPool {
    /// The pool program's identifier.
    pub fn id(&self) -> (r: crate::address::Key)
        ensures
            r == self.program_id,
    {
        self.program_id
    }
}

/// A decoded snapshot of the external pool's counters, in layout order.
#[derive(Debug, Clone, Copy)]
pub struct AmmInfo {
    pub status: u64,
    pub nonce: u64,
    pub order_num: u64,
    pub depth: u64,
    pub coin_decimals: u64,
    pub pc_decimals: u64,
    pub state: u64,
    pub reset_flag: u64,
    pub min_size: u64,
    pub vol_max_cut_ratio: u64,
    pub amount_wave_ratio: u64,
    pub coin_lot_size: u64,
    pub pc_lot_size: u64,
    pub min_price_multiplier: u64,
    pub max_price_multiplier: u64,
    pub system_decimal_value: u64,
    pub min_separate_numerator: u64,
    pub min_separate_denominator: u64,
    pub trade_fee_numerator: u64,
    pub trade_fee_denominator: u64,
    pub pnl_numerator: u64,
    pub pnl_denominator: u64,
    pub swap_fee_numerator: u64,
    pub swap_fee_denominator: u64,
    pub need_take_pnl_coin: u64,
    pub need_take_pnl_pc: u64,
    pub total_pnl_pc: u64,
    pub total_pnl_coin: u64,
    pub pool_total_deposit_pc: u64,
    pub pool_total_deposit_coin: u64,
    pub swap_coin_in_amount: u64,
    pub swap_pc_out_amount: u64,
    pub swap_coin_to_pc_fee: u64,
    pub swap_pc_in_amount: u64,
    pub swap_coin_out_amount: u64,
    pub swap_pc_to_coin_fee: u64,
}

/// The snapshot held in `s`, read counter by counter.
pub open spec fn amm_of(s: Seq<u8>) -> AmmInfo {
    AmmInfo {
        status: word_at(s, 0) as u64,
        nonce: word_at(s, 1) as u64,
        order_num: word_at(s, 2) as u64,
        depth: word_at(s, 3) as u64,
        coin_decimals: word_at(s, 4) as u64,
        pc_decimals: word_at(s, 5) as u64,
        state: word_at(s, 6) as u64,
        reset_flag: word_at(s, 7) as u64,
        min_size: word_at(s, 8) as u64,
        vol_max_cut_ratio: word_at(s, 9) as u64,
        amount_wave_ratio: word_at(s, 10) as u64,
        coin_lot_size: word_at(s, 11) as u64,
        pc_lot_size: word_at(s, 12) as u64,
        min_price_multiplier: word_at(s, 13) as u64,
        max_price_multiplier: word_at(s, 14) as u64,
        system_decimal_value: word_at(s, 15) as u64,
        min_separate_numerator: word_at(s, 16) as u64,
        min_separate_denominator: word_at(s, 17) as u64,
        trade_fee_numerator: word_at(s, 18) as u64,
        trade_fee_denominator: word_at(s, 19) as u64,
        pnl_numerator: word_at(s, 20) as u64,
        pnl_denominator: word_at(s, 21) as u64,
        swap_fee_numerator: word_at(s, 22) as u64,
        swap_fee_denominator: word_at(s, 23) as u64,
        need_take_pnl_coin: word_at(s, 24) as u64,
        need_take_pnl_pc: word_at(s, 25) as u64,
        total_pnl_pc: word_at(s, 26) as u64,
        total_pnl_coin: word_at(s, 27) as u64,
        pool_total_deposit_pc: word_at(s, 28) as u64,
        pool_total_deposit_coin: word_at(s, 29) as u64,
        swap_coin_in_amount: word_at(s, 30) as u64,
        swap_pc_out_amount: word_at(s, 31) as u64,
        swap_coin_to_pc_fee: word_at(s, 32) as u64,
        swap_pc_in_amount: word_at(s, 33) as u64,
        swap_coin_out_amount: word_at(s, 34) as u64,
        swap_pc_to_coin_fee: word_at(s, 35) as u64,
    }
}

impl AmmInfo {
    /// Decodes a snapshot: exactly `AMM_INFO_LEN` bytes holding the
    /// counters as consecutive little-endian `u64`s.
    pub fn try_from_slice(data: &[u8]) -> (r: Result<AmmInfo, ErrorCode>)
        ensures
            data@.len() == AMM_INFO_LEN <==> r is Ok,
            r is Err ==> r == Err::<AmmInfo, ErrorCode>(ErrorCode::MalformedPoolData),
            r matches Ok(a) ==> a == amm_of(data@),
    {
        if data.len() != AMM_INFO_LEN {
            return Err(ErrorCode::MalformedPoolData);
        }
        let a = AmmInfo {
            status: read_u64_le(data, 0),
            nonce: read_u64_le(data, 8),
            order_num: read_u64_le(data, 16),
            depth: read_u64_le(data, 24),
            coin_decimals: read_u64_le(data, 32),
            pc_decimals: read_u64_le(data, 40),
            state: read_u64_le(data, 48),
            reset_flag: read_u64_le(data, 56),
            min_size: read_u64_le(data, 64),
            vol_max_cut_ratio: read_u64_le(data, 72),
            amount_wave_ratio: read_u64_le(data, 80),
            coin_lot_size: read_u64_le(data, 88),
            pc_lot_size: read_u64_le(data, 96),
            min_price_multiplier: read_u64_le(data, 104),
            max_price_multiplier: read_u64_le(data, 112),
            system_decimal_value: read_u64_le(data, 120),
            min_separate_numerator: read_u64_le(data, 128),
            min_separate_denominator: read_u64_le(data, 136),
            trade_fee_numerator: read_u64_le(data, 144),
            trade_fee_denominator: read_u64_le(data, 152),
            pnl_numerator: read_u64_le(data, 160),
            pnl_denominator: read_u64_le(data, 168),
            swap_fee_numerator: read_u64_le(data, 176),
            swap_fee_denominator: read_u64_le(data, 184),
            need_take_pnl_coin: read_u64_le(data, 192),
            need_take_pnl_pc: read_u64_le(data, 200),
            total_pnl_pc: read_u64_le(data, 208),
            total_pnl_coin: read_u64_le(data, 216),
            pool_total_deposit_pc: read_u64_le(data, 224),
            pool_total_deposit_coin: read_u64_le(data, 232),
            swap_coin_in_amount: read_u64_le(data, 240),
            swap_pc_out_amount: read_u64_le(data, 248),
            swap_coin_to_pc_fee: read_u64_le(data, 256),
            swap_pc_in_amount: read_u64_le(data, 264),
            swap_coin_out_amount: read_u64_le(data, 272),
            swap_pc_to_coin_fee: read_u64_le(data, 280),
        };
        Ok(a)
    }
}

/// Fee share owed for a window of `elapsed` seconds, or `None` where the
/// arithmetic fails: a negative window, a zero denominator, a fee total that
/// does not fit in `u64`, or a result that does not fit in `u64`.
pub open spec fn fee_for_window(fee_a: u64, fee_b: u64, elapsed: int, locked_amount: u64, total_liquidity: u64) -> Option<u64> {
    let total_fees = fee_a + fee_b;
    if elapsed < 0 || total_liquidity == 0 || total_fees > u64::MAX {
        None
    } else {
        let user_share = total_fees * locked_amount / (total_liquidity as int);
        let adjusted = user_share * elapsed / (SECONDS_PER_DAY as int);
        if adjusted > u64::MAX {
            None
        } else {
            Some(adjusted as u64)
        }
    }
}

/// Fee owed to a lock of `locked_amount` for the window from `last_claim` to
/// `current_time`, given the pool's two cumulative swap-fee counters.
pub fn compute_fee(
    fee_a: u64,
    fee_b: u64,
    last_claim: i64,
    current_time: i64,
    locked_amount: u64,
    total_liquidity: u64,
) -> (r: Result<u64, ErrorCode>)
    ensures
        match r {
            Ok(v) => fee_for_window(fee_a, fee_b, current_time - last_claim, locked_amount, total_liquidity) == Some(v),
            Err(e) => e == ErrorCode::CalculationError
                && fee_for_window(fee_a, fee_b, current_time - last_claim, locked_amount, total_liquidity) is None,
        },
        total_liquidity == 0 ==> r == Err::<u64, ErrorCode>(ErrorCode::CalculationError),
        current_time == last_claim && total_liquidity > 0 && fee_a + fee_b <= u64::MAX ==> r == Ok::<u64, ErrorCode>(0),
{
    if current_time < last_claim {
        return Err(ErrorCode::CalculationError);
    }
    let elapsed: u128 = (current_time as i128 - last_claim as i128) as u128;
    let total_fees: u64 = match fee_a.checked_add(fee_b) {
        Some(t) => t,
        None => return Err(ErrorCode::CalculationError),
    };
    if total_liquidity == 0 {
        return Err(ErrorCode::CalculationError);
    }
    assert((total_fees as u128) * (locked_amount as u128) <= u64::MAX * u64::MAX) by (nonlinear_arith)
        requires
            total_fees <= u64::MAX,
            locked_amount <= u64::MAX,
    ;
    let numerator: u128 = (total_fees as u128) * (locked_amount as u128);
    let user_share: u128 = numerator / (total_liquidity as u128);
    assert(elapsed == 0 ==> user_share * elapsed == 0) by (nonlinear_arith);
    let product: u128 = match user_share.checked_mul(elapsed) {
        Some(p) => p,
        None => {
            assert(user_share * elapsed / (SECONDS_PER_DAY as int) > u64::MAX) by (nonlinear_arith)
                requires
                    user_share * elapsed > u128::MAX,
            ;
            return Err(ErrorCode::CalculationError);
        },
    };
    let adjusted: u128 = product / (SECONDS_PER_DAY as u128);
    if adjusted > u64::MAX as u128 {
        Err(ErrorCode::CalculationError)
    } else {
        Ok(adjusted as u64)
    }
}

/// What `get_pool_fees` yields on a snapshot `data`.
pub open spec fn pool_fees_result(data: Seq<u8>, elapsed: int, locked_amount: u64, total_liquidity: u64) -> Result<u64, ErrorCode> {
    if data.len() != AMM_INFO_LEN {
        Err(ErrorCode::MalformedPoolData)
    } else {
        match fee_for_window(
            amm_of(data).swap_coin_to_pc_fee,
            amm_of(data).swap_pc_to_coin_fee,
            elapsed,
            locked_amount,
            total_liquidity,
        ) {
            Some(v) => Ok(v),
            None => Err(ErrorCode::CalculationError),
        }
    }
}

/// Decodes the pool snapshot and computes the fee owed for the window from
/// `last_claim` to `current_time` out of its two cumulative swap-fee counters.
pub fn get_pool_fees(
    pool_data: &[u8],
    last_claim: i64,
    current_time: i64,
    locked_amount: u64,
    total_liquidity: u64,
) -> (r: Result<u64, ErrorCode>)
    ensures
        r == pool_fees_result(pool_data@, current_time - last_claim, locked_amount, total_liquidity),
{
    let amm = match AmmInfo::try_from_slice(pool_data) {
        Ok(a) => a,
        Err(e) => return Err(e),
    };
    compute_fee(
        amm.swap_coin_to_pc_fee,
        amm.swap_pc_to_coin_fee,
        last_claim,
        current_time,
        locked_amount,
        total_liquidity,
    )
}

/// For fixed pool counters, locked amount and liquidity, the fee owed never
/// decreases as the window grows: wherever the longer window yields a fee,
/// the shorter one yields one too, and no larger.
pub proof fn lemma_fee_monotonic_in_elapsed(
    fee_a: u64,
    fee_b: u64,
    shorter: int,
    longer: int,
    locked_amount: u64,
    total_liquidity: u64,
)
    requires
        0 <= shorter <= longer,
        fee_for_window(fee_a, fee_b, longer, locked_amount, total_liquidity) is Some,
    ensures
        fee_for_window(fee_a, fee_b, shorter, locked_amount, total_liquidity) is Some,
        fee_for_window(fee_a, fee_b, shorter, locked_amount, total_liquidity)->Some_0
            <= fee_for_window(fee_a, fee_b, longer, locked_amount, total_liquidity)->Some_0,
{
    let total_fees = fee_a + fee_b;
    let user_share = total_fees * locked_amount / (total_liquidity as int);
    assert(user_share >= 0) by (nonlinear_arith)
        requires
            total_fees >= 0,
            locked_amount >= 0,
            total_liquidity > 0,
            user_share == total_fees * locked_amount / (total_liquidity as int),
    ;
    assert(user_share * shorter <= user_share * longer) by (nonlinear_arith)
        requires
            user_share >= 0,
            0 <= shorter <= longer,
    ;
    vstd::arithmetic::div_mod::lemma_div_is_ordered(user_share * shorter, user_share * longer, SECONDS_PER_DAY as int);
}

} // verus!
