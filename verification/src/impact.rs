//! How far a pending transaction moves a pool's price.

use crate::mempool::MempoolTxEvent;
use crate::pools::{DexType, PoolConfig};
use crate::uint256::Uint256;
use vstd::arithmetic::div_mod::lemma_div_is_ordered;
use vstd::prelude::*;

verus! {

/// The least value of a transaction that counts, in wei: 0.01 ETH.
pub const MIN_TX_VALUE_ETH: u64 = 10_000_000_000_000_000;

/// The factor by which impacts are amplified.
pub const PRICE_IMPACT_MULTIPLIER: u64 = 20;

/// One ETH in wei.
pub const WEI_PER_ETH: u64 = 1_000_000_000_000_000_000;

/// The parts into which a price is divided to apply an impact.
pub const IMPACT_DENOMINATOR: u64 = 10000;

/// The impact of one ETH on a pool of the given type, in ten-thousandths of
/// the price.
pub open spec fn impact_per_eth(dex_type: DexType) -> nat {
    match dex_type {
        DexType::UniswapV3Pool => 25,
        DexType::UniswapV2Pair => 30,
        DexType::Router | DexType::ZeroXRouter => 15,
    }
}

/// The amplified impact of a value, of which only whole ETH count, in
/// ten-thousandths of the price.
pub open spec fn amplified_impact(value: nat, dex_type: DexType) -> nat {
    (value / WEI_PER_ETH as nat) * impact_per_eth(dex_type) * PRICE_IMPACT_MULTIPLIER as nat
}

/// How far a transaction of the given value moves the price.
pub open spec fn price_impact(price: nat, value: nat, dex_type: DexType) -> nat {
    if value < MIN_TX_VALUE_ETH {
        0
    } else {
        price * amplified_impact(value, dex_type) / (IMPACT_DENOMINATOR as nat)
    }
}

/// The impact can be computed in 64 bits: the value fits, and so does the price
/// times the amplified impact.
pub open spec fn impact_computable(price: nat, value: nat, dex_type: DexType) -> bool {
    &&& value <= u64::MAX
    &&& price * amplified_impact(value, dex_type) <= u64::MAX
}

/// The amplified impact of a value in wei.
fn amplify(tx_value: u64, dex_type: DexType) -> (r: u64)
    ensures
        r == amplified_impact(tx_value as nat, dex_type),
{
    let whole_eth: u64 = tx_value / WEI_PER_ETH;
    assert(whole_eth <= 18);
    let base_impact: u64 = match dex_type {
        DexType::UniswapV3Pool => whole_eth * 25,
        DexType::UniswapV2Pair => whole_eth * 30,
        DexType::Router | DexType::ZeroXRouter => whole_eth * 15,
    };
    base_impact * PRICE_IMPACT_MULTIPLIER
}

/// Tells whether the impact of a transaction can be computed in 64 bits.
pub fn is_impact_computable(
    current_price: u64,
    tx_event: &MempoolTxEvent,
    config: &PoolConfig,
) -> (r: bool)
    ensures
        r == impact_computable(current_price as nat, tx_event.tx_value@, config.dex_type),
{
    if tx_event.tx_value.exceeds(Uint256::from_u64(u64::MAX)) {
        return false;
    }
    let amplified = amplify(tx_event.tx_value.as_u64(), config.dex_type);
    current_price.checked_mul(amplified).is_some()
}

/// How far a transaction moves a pool's price.
pub fn calculate_instant_price_impact(
    current_price: u64,
    tx_event: &MempoolTxEvent,
    config: &PoolConfig,
) -> (impact: u64)
    requires
        impact_computable(current_price as nat, tx_event.tx_value@, config.dex_type),
    ensures
        impact == price_impact(current_price as nat, tx_event.tx_value@, config.dex_type),
{
    let tx_value: u64 = tx_event.tx_value.as_u64();
    if tx_value < MIN_TX_VALUE_ETH {
        return 0;
    }
    let amplified = amplify(tx_value, config.dex_type);
    (current_price * amplified) / IMPACT_DENOMINATOR
}

/// A transaction of less than the least value that counts has no impact, and
/// neither has one of less than one ETH.
pub proof fn law_small_transaction_no_impact(price: nat, value: nat, dex_type: DexType)
    ensures
        value < MIN_TX_VALUE_ETH ==> price_impact(price, value, dex_type) == 0,
        value < WEI_PER_ETH ==> price_impact(price, value, dex_type) == 0,
{
    if value < WEI_PER_ETH {
        assert(value / (WEI_PER_ETH as nat) == 0);
        assert(price * amplified_impact(value, dex_type) == 0) by (nonlinear_arith)
            requires
                amplified_impact(value, dex_type) == 0,
        ;
    }
}

/// A larger value never has a smaller amplified impact.
proof fn lemma_amplified_monotone(smaller: nat, larger: nat, dex_type: DexType)
    requires
        smaller <= larger,
    ensures
        amplified_impact(smaller, dex_type) <= amplified_impact(larger, dex_type),
{
    lemma_div_is_ordered(smaller as int, larger as int, WEI_PER_ETH as int);
}

/// A larger transaction on a higher price never has a smaller impact.
pub proof fn law_impact_monotone(
    lower_price: nat,
    higher_price: nat,
    smaller: nat,
    larger: nat,
    dex_type: DexType,
)
    requires
        lower_price <= higher_price,
        smaller <= larger,
    ensures
        price_impact(lower_price, smaller, dex_type) <= price_impact(
            higher_price,
            larger,
            dex_type,
        ),
{
    lemma_amplified_monotone(smaller, larger, dex_type);
    let a = amplified_impact(smaller, dex_type);
    let b = amplified_impact(larger, dex_type);
    assert(lower_price * a <= higher_price * b) by (nonlinear_arith)
        requires
            lower_price <= higher_price,
            a <= b,
    ;
    lemma_div_is_ordered(
        (lower_price * a) as int,
        (higher_price * b) as int,
        IMPACT_DENOMINATOR as int,
    );
}

/// A whole number of ETH moves the price by that many times the pool type's
/// share, amplified.
pub proof fn law_impact_of_whole_eth(price: nat, eth: nat, dex_type: DexType)
    requires
        eth > 0,
    ensures
        price_impact(price, eth * (WEI_PER_ETH as nat), dex_type) == price * (eth * impact_per_eth(
            dex_type,
        ) * (PRICE_IMPACT_MULTIPLIER as nat)) / (IMPACT_DENOMINATOR as nat),
{
    assert(eth * (WEI_PER_ETH as nat) / (WEI_PER_ETH as nat) == eth);
}

/// The same transaction moves a pair at least as far as a pool, and a pool at
/// least as far as a router; both kinds of router move alike.
pub proof fn law_impact_by_type(price: nat, value: nat)
    ensures
        price_impact(price, value, DexType::UniswapV2Pair) >= price_impact(
            price,
            value,
            DexType::UniswapV3Pool,
        ),
        price_impact(price, value, DexType::UniswapV3Pool) >= price_impact(
            price,
            value,
            DexType::Router,
        ),
        price_impact(price, value, DexType::Router) == price_impact(
            price,
            value,
            DexType::ZeroXRouter,
        ),
{
    let pair = amplified_impact(value, DexType::UniswapV2Pair);
    let pool = amplified_impact(value, DexType::UniswapV3Pool);
    let router = amplified_impact(value, DexType::Router);
    assert(price * pair >= price * pool >= price * router) by (nonlinear_arith)
        requires
            pair >= pool >= router,
    ;
    lemma_div_is_ordered((price * pool) as int, (price * pair) as int, IMPACT_DENOMINATOR as int);
    lemma_div_is_ordered((price * router) as int, (price * pool) as int, IMPACT_DENOMINATOR as int);
}

/// A price and an impact on it that can be computed add up within 64 bits.
pub proof fn law_impact_never_saturates(price: nat, value: nat, dex_type: DexType)
    requires
        price <= u64::MAX,
        impact_computable(price, value, dex_type),
    ensures
        price + price_impact(price, value, dex_type) <= u64::MAX,
{
    let a = amplified_impact(value, dex_type);
    if value / (WEI_PER_ETH as nat) == 0 {
        law_small_transaction_no_impact(price, value, dex_type);
    } else {
        assert(a >= 300);
        assert(price * 300 <= price * a) by (nonlinear_arith)
            requires
                a >= 300,
        ;
    }
}

} // verus!
