//! What the feed's operations are for, in terms of what goes in and what comes
//! out.
//!
//! Each law speaks of any result that an operation may return, written
//! `call_ensures`, and of the inputs that it admits, written `call_requires`,
//! and gives the numbers and bytes themselves.

use crate::pricing::{
    are_reserves_readable, are_swaps_readable, get_last_swap_price, get_uniswap_v2_price,
    get_uniswap_v3_price, is_slot0_readable, is_sqrt_price_in_range, sqrt_price_to_price,
};
use crate::primitives::LogEntry;
use crate::uint256::{big_endian, Uint256};
use vstd::arithmetic::div_mod::{lemma_fundamental_div_mod, lemma_fundamental_div_mod_converse};
use vstd::arithmetic::power::pow;
use vstd::prelude::*;

verus! {

/// Big-endian bytes are read in base 256: one byte is its own value, and bytes
/// before others weigh 256 for each of those.
pub proof fn law_big_endian_base(front: Seq<u8>, back: Seq<u8>)
    ensures
        big_endian(front + back) == big_endian(front) * pow(256, back.len()) + big_endian(back),
        front.len() == 1 ==> big_endian(front) == front[0],
    decreases back.len(),
{
    reveal_with_fuel(big_endian, 2);
    reveal(pow);
    if front.len() == 1 {
        assert(front.drop_last() =~= Seq::empty());
    }
    if back.len() == 0 {
        assert(front + back =~= front);
    } else {
        law_big_endian_base(front, back.drop_last());
        assert((front + back).drop_last() =~= front + back.drop_last());
        assert((front + back).last() == back.last());
        let p = pow(256, back.drop_last().len());
        assert(pow(256, back.len()) == 256 * p);
        let f = big_endian(front) as int;
        assert(256 * (f * p) == f * (256 * p)) by (nonlinear_arith);
    }
}

/// The limbs of a number are its digits in base 2^64, the least significant
/// first, so a number has one form only.
pub proof fn law_limbs_are_digits(x: Uint256)
    ensures
        x@ % 0x1_0000000000000000nat == x.limbs@[0],
        x@ / 0x1_0000000000000000nat % 0x1_0000000000000000nat == x.limbs@[1],
        x@ / 0x1_0000000000000000_0000000000000000nat % 0x1_0000000000000000nat == x.limbs@[2],
        x@ / 0x1_0000000000000000_0000000000000000_0000000000000000nat == x.limbs@[3],
{
    let b = 0x1_0000000000000000int;
    let d0 = x.limbs@[0] as int;
    let d1 = x.limbs@[1] as int;
    let d2 = x.limbs@[2] as int;
    let d3 = x.limbs@[3] as int;
    lemma_fundamental_div_mod_converse(x@ as int, b, d1 + b * d2 + (b * b) * d3, d0);
    lemma_fundamental_div_mod_converse(d1 + b * d2 + (b * b) * d3, b, d2 + b * d3, d1);
    lemma_fundamental_div_mod_converse(x@ as int, b * b, d2 + b * d3, d0 + b * d1);
    lemma_fundamental_div_mod_converse(d2 + b * d3, b, d3, d2);
    lemma_fundamental_div_mod_converse(x@ as int, b * b * b, d3, d0 + b * d1 + (b * b) * d2);
}

/// The number zero is below every other.
pub proof fn law_zero(zero: Uint256, x: Uint256)
    requires
        call_ensures(Uint256::zero, (), zero),
    ensures
        zero@ <= x@,
        zero@ == 0,
        call_requires(Uint256::zero, ()),
{
}

/// A square-root price s below 2^128, with q * 2^192 <= s * s < (q + 1) * 2^192,
/// is converted to q * 10^12, or the largest `u64` where that is larger.
pub proof fn law_sqrt_price(sqrt_price_x96: Uint256, price: u64, q: nat)
    requires
        sqrt_price_x96@ < 0x1_0000000000000000_0000000000000000nat,
        q * 0x1_0000000000000000_0000000000000000_0000000000000000nat <= sqrt_price_x96@
            * sqrt_price_x96@,
        sqrt_price_x96@ * sqrt_price_x96@ < (q + 1)
            * 0x1_0000000000000000_0000000000000000_0000000000000000nat,
        call_ensures(sqrt_price_to_price, (sqrt_price_x96,), price),
    ensures
        call_requires(sqrt_price_to_price, (sqrt_price_x96,)),
        q * 1_000_000_000_000 <= 18_446_744_073_709_551_615 ==> price == q * 1_000_000_000_000,
        q * 1_000_000_000_000 > 18_446_744_073_709_551_615 ==> price
            == 18_446_744_073_709_551_615,
{
    assert(sqrt_price_x96@ * sqrt_price_x96@
        / 0x1_0000000000000000_0000000000000000_0000000000000000nat == q);
}

/// The test for square-root prices admits those below 2^128, and no others.
pub proof fn law_sqrt_price_range(sqrt_price_x96: Uint256, r: bool)
    requires
        call_ensures(is_sqrt_price_in_range, (sqrt_price_x96,), r),
    ensures
        r <==> sqrt_price_x96@ < 0x1_0000000000000000_0000000000000000nat,
        call_requires(is_sqrt_price_in_range, (sqrt_price_x96,)),
{
}

/// A Uniswap V3 pool's price is that of the square-root price in the first 32
/// bytes of the result, whatever follows them.
pub proof fn law_v3_price(result: &[u8], sqrt_price_x96: nat, price: u64, q: nat)
    requires
        result@.len() >= 32,
        sqrt_price_x96 == big_endian(result@.take(32)),
        sqrt_price_x96 < 0x1_0000000000000000_0000000000000000nat,
        q * 0x1_0000000000000000_0000000000000000_0000000000000000nat <= sqrt_price_x96
            * sqrt_price_x96,
        sqrt_price_x96 * sqrt_price_x96 < (q + 1)
            * 0x1_0000000000000000_0000000000000000_0000000000000000nat,
        call_ensures(get_uniswap_v3_price, (result,), price),
    ensures
        call_requires(get_uniswap_v3_price, (result,)),
        q * 1_000_000_000_000 <= 18_446_744_073_709_551_615 ==> price == q * 1_000_000_000_000,
        q * 1_000_000_000_000 > 18_446_744_073_709_551_615 ==> price
            == 18_446_744_073_709_551_615,
{
    assert(result@.subrange(0, 32) =~= result@.take(32));
    assert(sqrt_price_x96 * sqrt_price_x96
        / 0x1_0000000000000000_0000000000000000_0000000000000000nat == q);
}

/// The test for `slot0` results admits those whose first 32 bytes are there and
/// hold a number below 2^128, and no others.
pub proof fn law_slot0_test(result: &[u8], r: bool)
    requires
        call_ensures(is_slot0_readable, (result,), r),
    ensures
        r <==> result@.len() >= 32 && big_endian(result@.take(32))
            < 0x1_0000000000000000_0000000000000000nat,
        call_requires(is_slot0_readable, (result,)),
{
    if result@.len() >= 32 {
        assert(result@.subrange(0, 32) =~= result@.take(32));
    }
}

/// A Uniswap V2 pair's price q is 10^18 times the number in bytes 32 to 64 over
/// the number in the first 32 bytes, rounded down: q * r0 <= r1 * 10^18
/// < (q + 1) * r0.
pub proof fn law_v2_price(result: &[u8], r0: nat, r1: nat, price: u64, q: nat)
    requires
        result@.len() >= 64,
        r0 == big_endian(result@.take(32)),
        r1 == big_endian(result@.skip(32).take(32)),
        r0 > 0,
        r1 * 1_000_000_000_000_000_000
            < 0x1_0000000000000000_0000000000000000_0000000000000000_0000000000000000nat,
        q * r0 <= r1 * 1_000_000_000_000_000_000,
        r1 * 1_000_000_000_000_000_000 < (q + 1) * r0,
        q <= 18_446_744_073_709_551_615,
        call_ensures(get_uniswap_v2_price, (result,), price),
    ensures
        call_requires(get_uniswap_v2_price, (result,)),
        price == q,
{
    assert(result@.subrange(0, 32) =~= result@.take(32));
    assert(result@.subrange(32, 64) =~= result@.skip(32).take(32));
    let n = r1 * 1_000_000_000_000_000_000;
    assert((q + 1) * r0 == q * r0 + r0) by (nonlinear_arith);
    lemma_fundamental_div_mod_converse(n as int, r0 as int, q as int, n - q * r0);
}

/// A Uniswap V2 pair whose first 32 bytes are zero has the price zero.
pub proof fn law_v2_price_without_reserve(result: &[u8], price: u64)
    requires
        result@.len() >= 64,
        big_endian(result@.take(32)) == 0,
        call_ensures(get_uniswap_v2_price, (result,), price),
    ensures
        call_requires(get_uniswap_v2_price, (result,)),
        price == 0,
{
    assert(result@.subrange(0, 32) =~= result@.take(32));
}

/// The test for `getReserves` results admits those that hold 64 bytes, and
/// either a first number of zero, or a second one that times 10^18 stays below
/// 2^256 and below 2^64 times the first.
pub proof fn law_reserves_test(result: &[u8], r: bool)
    requires
        call_ensures(are_reserves_readable, (result,), r),
    ensures
        result@.len() < 64 ==> !r,
        result@.len() >= 64 ==> ({
            let r0 = big_endian(result@.take(32));
            let r1 = big_endian(result@.skip(32).take(32));
            r <==> r0 == 0 || (r1 * 1_000_000_000_000_000_000
                < 0x1_0000000000000000_0000000000000000_0000000000000000_0000000000000000nat && r1
                * 1_000_000_000_000_000_000 < r0 * 0x1_0000000000000000nat)
        }),
        call_requires(are_reserves_readable, (result,)),
{
    if result@.len() >= 64 {
        assert(result@.subrange(0, 32) =~= result@.take(32));
        assert(result@.subrange(32, 64) =~= result@.skip(32).take(32));
        let r0 = big_endian(result@.take(32));
        let r1 = big_endian(result@.skip(32).take(32));
        if r0 > 0 {
            let n = r1 * 1_000_000_000_000_000_000;
            let q = n / r0;
            lemma_fundamental_div_mod(n as int, r0 as int);
            assert(q < 0x1_0000000000000000nat <==> n < r0 * 0x1_0000000000000000nat)
                by (nonlinear_arith)
                requires
                    r0 > 0,
                    n == r0 * q + n % r0,
                    0 <= n % r0 < r0,
            ;
        }
    }
}

/// A router whose last log has a topic, or more, and 160 bytes of data, or
/// more, has the price of the square-root price in bytes 128 to 160.
pub proof fn law_last_swap_price(logs: &[LogEntry], s: nat, price: u64, q: nat)
    requires
        logs@.len() > 0,
        logs@.last().topics@.len() >= 1,
        logs@.last().data@.len() >= 160,
        s == big_endian(logs@.last().data@.skip(128).take(32)),
        s < 0x1_0000000000000000_0000000000000000nat,
        q * 0x1_0000000000000000_0000000000000000_0000000000000000nat <= s * s,
        s * s < (q + 1) * 0x1_0000000000000000_0000000000000000_0000000000000000nat,
        call_ensures(get_last_swap_price, (logs,), price),
    ensures
        call_requires(get_last_swap_price, (logs,)),
        q * 1_000_000_000_000 <= 18_446_744_073_709_551_615 ==> price == q * 1_000_000_000_000,
        q * 1_000_000_000_000 > 18_446_744_073_709_551_615 ==> price
            == 18_446_744_073_709_551_615,
{
    let data = logs@.last().data@;
    assert(data.subrange(128, 160) =~= data.skip(128).take(32));
    assert(s * s / 0x1_0000000000000000_0000000000000000_0000000000000000nat == q);
}

/// A router without a log, or whose last log has no topic or fewer than 160
/// bytes of data, has the default price.
pub proof fn law_default_swap_price(logs: &[LogEntry], price: u64)
    requires
        logs@.len() == 0 || logs@.last().topics@.len() == 0 || logs@.last().data@.len() < 160,
        call_ensures(get_last_swap_price, (logs,), price),
    ensures
        call_requires(get_last_swap_price, (logs,)),
        price == 10_665_824_850_173_493_248,
{
}

/// Two routers whose last logs have topics and agree in bytes 128 to 160 of
/// their data have the same price, however many topics there are, whatever
/// other bytes the data hold, and whatever logs come before.
pub proof fn law_swap_price_by_its_bytes(
    logs: &[LogEntry],
    other_logs: &[LogEntry],
    price: u64,
    other_price: u64,
)
    requires
        logs@.len() > 0,
        other_logs@.len() > 0,
        logs@.last().topics@.len() >= 1,
        other_logs@.last().topics@.len() >= 1,
        logs@.last().data@.len() >= 160,
        other_logs@.last().data@.len() >= 160,
        forall|i: int|
            128 <= i < 160 ==> #[trigger] logs@.last().data@[i] == other_logs@.last().data@[i],
        big_endian(logs@.last().data@.skip(128).take(32)) < 0x1_0000000000000000_0000000000000000nat,
        call_ensures(get_last_swap_price, (logs,), price),
        call_ensures(get_last_swap_price, (other_logs,), other_price),
    ensures
        call_requires(get_last_swap_price, (logs,)),
        call_requires(get_last_swap_price, (other_logs,)),
        price == other_price,
{
    let data = logs@.last().data@;
    let other_data = other_logs@.last().data@;
    assert(data.subrange(128, 160) =~= data.skip(128).take(32));
    assert(data.subrange(128, 160) =~= other_data.subrange(128, 160));
}

/// The test for a router's logs refuses them just where the last one has a
/// topic and 160 bytes of data, of which bytes 128 to 160 hold 2^128 or more.
pub proof fn law_swaps_test(logs: &[LogEntry], r: bool)
    requires
        call_ensures(are_swaps_readable, (logs,), r),
    ensures
        !r <==> logs@.len() > 0 && logs@.last().topics@.len() >= 1 && logs@.last().data@.len()
            >= 160 && big_endian(logs@.last().data@.skip(128).take(32))
            >= 0x1_0000000000000000_0000000000000000nat,
        call_requires(are_swaps_readable, (logs,)),
{
    if logs@.len() > 0 && logs@.last().data@.len() >= 160 {
        let data = logs@.last().data@;
        assert(data.subrange(128, 160) =~= data.skip(128).take(32));
    }
}

} // verus!
