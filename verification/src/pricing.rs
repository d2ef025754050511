//! Prices out of what a contract call or an event log holds.

use crate::primitives::LogEntry;
use crate::uint256::{big_endian, word_range, Uint256};
use vstd::arithmetic::div_mod::{
    lemma_div_is_ordered, lemma_fundamental_div_mod, lemma_fundamental_div_mod_converse,
};
use vstd::arithmetic::power::pow;
use vstd::arithmetic::power2::{lemma2_to64_rest, lemma_pow2, lemma_pow2_adds};
use vstd::prelude::*;
use vstd::slice::slice_subrange;

verus! {

/// The price of a router without a readable swap: 1800 * 10^18 in the 64 bits
/// of a price, which keep it modulo 2^64.
pub const DEFAULT_PRICE: u64 = 10_665_824_850_173_493_248;

/// The fixed-point scale of a pair's price, 10^18.
pub const PRICE_SCALE: u64 = 1_000_000_000_000_000_000;

/// The difference between the decimals of the two tokens of a pool, 10^12.
pub const DECIMAL_ADJUSTMENT: u64 = 1_000_000_000_000;

/// Where the square-root price stands in a swap's log data.
pub const SWAP_PRICE_OFFSET: usize = 128;

/// The end of the square-root price in a swap's log data.
pub const SWAP_PRICE_END: usize = 160;

/// 2^128: a square root from here on squares beyond 256 bits.
pub open spec fn sqrt_price_range() -> nat {
    0x1_0000000000000000_0000000000000000nat
}

/// 2^192: the scale of a squared Q64.96 number.
pub open spec fn q192() -> nat {
    0x1_0000000000000000_0000000000000000_0000000000000000nat
}

/// The price of a square-root price in Q64.96: the whole part of its square,
/// scaled by the decimal adjustment, before the cap.
pub open spec fn uncapped_price(sqrt_price_x96: nat) -> nat {
    (sqrt_price_x96 * sqrt_price_x96 / q192()) * DECIMAL_ADJUSTMENT as nat
}

/// The price of a square-root price in Q64.96, capped at the largest `u64`.
pub open spec fn price_of_sqrt(sqrt_price_x96: nat) -> u64 {
    if uncapped_price(sqrt_price_x96) > u64::MAX {
        u64::MAX
    } else {
        uncapped_price(sqrt_price_x96) as u64
    }
}

/// The `i`-th 32-byte word of a call's result.
pub open spec fn result_word(result: Seq<u8>, i: int) -> nat {
    big_endian(result.subrange(32 * i, 32 * i + 32))
}

/// A `slot0` result from which a price can be computed: it holds the
/// square-root price, which squares within 256 bits.
pub open spec fn slot0_readable(result: Seq<u8>) -> bool {
    &&& result.len() >= 32
    &&& result_word(result, 0) < sqrt_price_range()
}

/// The price of a pair whose reserves are known, without a bound.
pub open spec fn reserves_ratio(reserve0: nat, reserve1: nat) -> nat {
    reserve1 * PRICE_SCALE as nat / reserve0
}

/// A `getReserves` result from which a price can be computed: it holds both
/// reserves, and unless the first is zero, the second scales within 256 bits
/// and the ratio fits in 64.
pub open spec fn reserves_readable(result: Seq<u8>) -> bool {
    &&& result.len() >= 64
    &&& result_word(result, 0) > 0 ==> {
        &&& result_word(result, 1) * (PRICE_SCALE as nat) < word_range()
        &&& reserves_ratio(result_word(result, 0), result_word(result, 1)) <= u64::MAX
    }
}

/// The price of a pair: the second reserve over the first in fixed point,
/// rounded down; zero where the first reserve is zero.
pub open spec fn reserves_price(reserve0: nat, reserve1: nat) -> u64 {
    if reserve0 > 0 {
        reserves_ratio(reserve0, reserve1) as u64
    } else {
        0
    }
}

/// A log that holds a swap's square-root price.
pub open spec fn is_priced_swap(log: LogEntry) -> bool {
    log.topics@.len() > 0 && log.data@.len() >= SWAP_PRICE_END
}

/// The square-root price in a swap's log data.
pub open spec fn swap_sqrt_price(log: LogEntry) -> nat {
    big_endian(log.data@.subrange(SWAP_PRICE_OFFSET as int, SWAP_PRICE_END as int))
}

/// Logs from which a price can be computed: where the last one holds a
/// square-root price, that squares within 256 bits.
pub open spec fn swaps_readable(logs: Seq<LogEntry>) -> bool {
    logs.len() > 0 && is_priced_swap(logs.last()) ==> swap_sqrt_price(logs.last())
        < sqrt_price_range()
}

/// The price of a router: that of its last log, and the default price where
/// there is no log or the last one holds no price.
pub open spec fn last_swap(logs: Seq<LogEntry>) -> u64 {
    if logs.len() > 0 && is_priced_swap(logs.last()) {
        price_of_sqrt(swap_sqrt_price(logs.last()))
    } else {
        DEFAULT_PRICE
    }
}

/// Tells whether a square-root price squares within 256 bits.
pub fn is_sqrt_price_in_range(sqrt_price_x96: Uint256) -> (r: bool)
    ensures
        r == (sqrt_price_x96@ < sqrt_price_range()),
{
    let largest = Uint256 { limbs: [u64::MAX, u64::MAX, 0, 0] };
    !sqrt_price_x96.exceeds(largest)
}

/// Tells whether a price can be computed from a `slot0` result.
pub fn is_slot0_readable(result: &[u8]) -> (r: bool)
    ensures
        r == slot0_readable(result@),
{
    if result.len() < 32 {
        return false;
    }
    let sqrt_price_x96 = Uint256::from_big_endian(slice_subrange(result, 0, 32));
    is_sqrt_price_in_range(sqrt_price_x96)
}

/// Tells whether a price can be computed from a `getReserves` result.
pub fn are_reserves_readable(result: &[u8]) -> (r: bool)
    ensures
        r == reserves_readable(result@),
{
    if result.len() < 64 {
        return false;
    }
    let reserve0 = Uint256::from_big_endian(slice_subrange(result, 0, 32));
    let reserve1 = Uint256::from_big_endian(slice_subrange(result, 32, 64));
    if !reserve0.exceeds(Uint256::zero()) {
        return true;
    }
    let scale = Uint256::from_u64(PRICE_SCALE);
    let largest = Uint256 { limbs: [u64::MAX, u64::MAX, u64::MAX, u64::MAX] };
    let limit = largest.divided_by(scale);
    proof {
        lemma_product_limit(reserve1@, scale@, largest@);
    }
    if reserve1.exceeds(limit) {
        return false;
    }
    !reserve1.times(scale).divided_by(reserve0).exceeds(Uint256::from_u64(u64::MAX))
}

/// Tells whether a price can be computed from a router's logs.
pub fn are_swaps_readable(logs: &[LogEntry]) -> (r: bool)
    ensures
        r == swaps_readable(logs@),
{
    if logs.len() == 0 {
        return true;
    }
    let last_log = &logs[logs.len() - 1];
    if last_log.topics.len() > 0 && last_log.data.len() >= SWAP_PRICE_END {
        let sqrt_price_bytes = slice_subrange(
            last_log.data.as_slice(),
            SWAP_PRICE_OFFSET,
            SWAP_PRICE_END,
        );
        is_sqrt_price_in_range(Uint256::from_big_endian(sqrt_price_bytes))
    } else {
        true
    }
}

/// A product stays within a limit as long as one factor stays within the
/// limit's quotient by the other.
proof fn lemma_product_limit(x: nat, y: nat, limit: nat)
    requires
        y > 0,
    ensures
        x <= limit / y <==> x * y <= limit,
{
    let q = limit / y;
    lemma_fundamental_div_mod(limit as int, y as int);
    if x <= q {
        assert(x * y <= y * q) by (nonlinear_arith)
            requires
                x <= q,
        ;
    } else {
        assert(x * y >= y * q + y) by (nonlinear_arith)
            requires
                x >= q + 1,
        ;
    }
}

/// 2 to the power of 192 is the scale of a squared Q64.96 number.
proof fn lemma_q192()
    ensures
        pow(2, 192) == q192(),
{
    lemma2_to64_rest();
    lemma_pow2_adds(64, 64);
    lemma_pow2_adds(128, 64);
    lemma_pow2(192);
}

/// Converts a square-root price in Q64.96 to a price.
pub fn sqrt_price_to_price(sqrt_price_x96: Uint256) -> (price: u64)
    requires
        sqrt_price_x96@ < sqrt_price_range(),
    ensures
        price == price_of_sqrt(sqrt_price_x96@),
{
    let ghost s = sqrt_price_x96@;
    proof {
        lemma_q192();
        assert(s * s < word_range()) by (nonlinear_arith)
            requires
                s < sqrt_price_range(),
        ;
    }
    let price_x192 = sqrt_price_x96.times(sqrt_price_x96);
    let q192 = Uint256::from_u64(2).power(Uint256::from_u64(192));
    let price_ratio = price_x192.divided_by(q192);
    let decimal_adjustment = Uint256::from_u64(DECIMAL_ADJUSTMENT);
    let final_price = price_ratio.times(decimal_adjustment);
    if final_price.exceeds(Uint256::from_u64(u64::MAX)) {
        u64::MAX
    } else {
        final_price.as_u64()
    }
}

/// The price in a Uniswap V3 pool's `slot0` result, whose first word is the
/// square-root price.
pub fn get_uniswap_v3_price(result: &[u8]) -> (price: u64)
    requires
        slot0_readable(result@),
    ensures
        price == price_of_sqrt(result_word(result@, 0)),
{
    let sqrt_price_x96 = Uint256::from_big_endian(slice_subrange(result, 0, 32));
    sqrt_price_to_price(sqrt_price_x96)
}

/// The price in a Uniswap V2 pair's `getReserves` result, whose first two words
/// are the reserves.
pub fn get_uniswap_v2_price(result: &[u8]) -> (price: u64)
    requires
        reserves_readable(result@),
    ensures
        price == reserves_price(result_word(result@, 0), result_word(result@, 1)),
{
    let reserve0 = Uint256::from_big_endian(slice_subrange(result, 0, 32));
    let reserve1 = Uint256::from_big_endian(slice_subrange(result, 32, 64));
    if reserve0.exceeds(Uint256::zero()) {
        reserve1.times(Uint256::from_u64(PRICE_SCALE)).divided_by(reserve0).as_u64()
    } else {
        0
    }
}

/// The price in a router's logs: that of the last one, where it has a topic
/// and its data reach to the end of the square-root price; else the default.
pub fn get_last_swap_price(logs: &[LogEntry]) -> (price: u64)
    requires
        swaps_readable(logs@),
    ensures
        price == last_swap(logs@),
{
    if logs.len() == 0 {
        return DEFAULT_PRICE;
    }
    let last_log = &logs[logs.len() - 1];
    if last_log.topics.len() > 0 && last_log.data.len() >= SWAP_PRICE_END {
        let sqrt_price_bytes = slice_subrange(
            last_log.data.as_slice(),
            SWAP_PRICE_OFFSET,
            SWAP_PRICE_END,
        );
        sqrt_price_to_price(Uint256::from_big_endian(sqrt_price_bytes))
    } else {
        DEFAULT_PRICE
    }
}

/// The default price is 1800 at the scale of 10^18, modulo 2^64.
pub proof fn law_default_price()
    ensures
        DEFAULT_PRICE == (1800 * PRICE_SCALE) % 0x1_0000000000000000int,
{
}

/// A larger square-root price never has a smaller price.
pub proof fn law_sqrt_price_monotone(smaller: nat, larger: nat)
    requires
        smaller <= larger,
    ensures
        price_of_sqrt(smaller) <= price_of_sqrt(larger),
{
    assert(smaller * smaller <= larger * larger) by (nonlinear_arith)
        requires
            smaller <= larger,
    ;
    lemma_div_is_ordered((smaller * smaller) as int, (larger * larger) as int, q192() as int);
}

/// The price is zero just for the square-root prices below one in Q64.96.
pub proof fn law_sqrt_price_below_one(sqrt_price_x96: nat)
    ensures
        price_of_sqrt(sqrt_price_x96) == 0 <==> sqrt_price_x96
            < 0x1_00000000_0000000000000000nat,
{
    let s = sqrt_price_x96;
    let one = 0x1_00000000_0000000000000000nat;
    if s < one {
        assert(s * s < one * one) by (nonlinear_arith)
            requires
                s < one,
        ;
    } else {
        assert(s * s >= one * one) by (nonlinear_arith)
            requires
                s >= one,
        ;
    }
    assert(one * one == q192()) by (nonlinear_arith)
        requires
            one == 0x1_00000000_0000000000000000nat,
    ;
}

/// A square-root price of `n` in Q64.96 has the price `n` squared, scaled by
/// the decimal adjustment and capped.
pub proof fn law_sqrt_price_of_whole_number(n: nat)
    ensures
        uncapped_price(n * 0x1_00000000_0000000000000000nat) == n * n * DECIMAL_ADJUSTMENT,
{
    let one = 0x1_00000000_0000000000000000nat;
    assert((n * one) * (n * one) == (n * n) * q192()) by (nonlinear_arith)
        requires
            one == 0x1_00000000_0000000000000000nat,
    ;
    lemma_fundamental_div_mod_converse(
        ((n * n) * q192()) as int,
        q192() as int,
        (n * n) as int,
        0,
    );
}

/// A pair's price depends on the proportion of its reserves alone.
pub proof fn law_reserves_price_scales(reserve0: nat, reserve1: nat, factor: nat)
    requires
        factor > 0,
    ensures
        reserves_price(factor * reserve0, factor * reserve1) == reserves_price(reserve0, reserve1),
{
    if reserve0 > 0 {
        let n = reserve1 * (PRICE_SCALE as nat);
        let q = n / reserve0;
        let r = n % reserve0;
        lemma_fundamental_div_mod(n as int, reserve0 as int);
        assert((factor * reserve1) * (PRICE_SCALE as nat) == q * (factor * reserve0) + factor * r)
            by (nonlinear_arith)
            requires
                n == reserve1 * (PRICE_SCALE as nat),
                n == reserve0 * q + r,
        ;
        assert(0 <= factor * r < factor * reserve0) by (nonlinear_arith)
            requires
                0 <= r < reserve0,
                factor > 0,
        ;
        lemma_fundamental_div_mod_converse(
            ((factor * reserve1) * (PRICE_SCALE as nat)) as int,
            (factor * reserve0) as int,
            q as int,
            (factor * r) as int,
        );
    } else {
        assert(factor * reserve0 == 0) by (nonlinear_arith)
            requires
                reserve0 == 0,
        ;
    }
}

/// Only the last of a router's logs counts.
pub proof fn law_only_last_swap_counts(older: Seq<LogEntry>, logs: Seq<LogEntry>)
    requires
        logs.len() > 0,
    ensures
        last_swap(older + logs) == last_swap(logs),
        swaps_readable(older + logs) == swaps_readable(logs),
{
    assert((older + logs).last() == logs.last());
}

/// What follows the words that a price is read from does not count.
pub proof fn law_result_tail_ignored(result: Seq<u8>, tail: Seq<u8>)
    ensures
        result.len() >= 32 ==> result_word(result + tail, 0) == result_word(result, 0),
        result.len() >= 64 ==> result_word(result + tail, 1) == result_word(result, 1),
{
    if result.len() >= 32 {
        assert((result + tail).subrange(0, 32) =~= result.subrange(0, 32));
    }
    if result.len() >= 64 {
        assert((result + tail).subrange(32, 64) =~= result.subrange(32, 64));
    }
}

} // verus!
