use price_feed::pricing::{
    are_reserves_readable, are_swaps_readable, get_last_swap_price, get_uniswap_v2_price,
    get_uniswap_v3_price, is_slot0_readable, is_sqrt_price_in_range, sqrt_price_to_price,
    DEFAULT_PRICE,
};
use price_feed::primitives::{Hash256, LogEntry};
use price_feed::uint256::Uint256;

/// `n` in Q64.96.
fn q96(n: u32) -> Uint256 {
    Uint256 { limbs: [0, (n as u64) << 32, 0, 0] }
}

fn word(value: u128) -> Vec<u8> {
    let mut bytes = vec![0u8; 16];
    bytes.extend_from_slice(&value.to_be_bytes());
    bytes
}

fn reserves(reserve0: u128, reserve1: u128) -> Vec<u8> {
    let mut bytes = word(reserve0);
    bytes.extend(word(reserve1));
    bytes
}

fn swap_log(sqrt_price_x96: u128) -> LogEntry {
    let mut data = vec![0xeeu8; 128];
    data.extend(word(sqrt_price_x96));
    LogEntry { topics: vec![Hash256 { bytes: [7; 32] }], data }
}

const ONE: u128 = 1 << 96;

#[test]
fn sqrt_price_of_whole_numbers() {
    assert_eq!(sqrt_price_to_price(q96(0)), 0);
    assert_eq!(sqrt_price_to_price(q96(1)), 1_000_000_000_000);
    assert_eq!(sqrt_price_to_price(q96(3)), 9_000_000_000_000);
    assert_eq!(sqrt_price_to_price(q96(1000)), 1_000_000_000_000_000_000);
}

#[test]
fn sqrt_price_rounds_the_square_down() {
    // 123.75 squared is 15314.0625.
    let limbs = ((ONE * 123) + (ONE / 4) * 3).to_le_bytes();
    let low = u64::from_le_bytes(limbs[..8].try_into().unwrap());
    let high = u64::from_le_bytes(limbs[8..].try_into().unwrap());
    let price = sqrt_price_to_price(Uint256 { limbs: [low, high, 0, 0] });
    assert_eq!(price, 15_314_000_000_000_000);
}

#[test]
fn sqrt_price_below_one_is_zero() {
    assert_eq!(sqrt_price_to_price(Uint256 { limbs: [u64::MAX, 0xffff_ffff, 0, 0] }), 0);
    assert_eq!(sqrt_price_to_price(Uint256 { limbs: [0, 0x1_0000_0000, 0, 0] }), 1_000_000_000_000);
}

#[test]
fn sqrt_price_is_capped() {
    // 4294 squared is 18438436, 4295 squared is 18447025; the cap lies between.
    assert_eq!(sqrt_price_to_price(q96(4294)), 18_438_436_000_000_000_000);
    assert_eq!(sqrt_price_to_price(q96(4295)), u64::MAX);
    assert_eq!(sqrt_price_to_price(Uint256 { limbs: [u64::MAX, u64::MAX, 0, 0] }), u64::MAX);
}

#[test]
fn sqrt_price_range_ends_at_128_bits() {
    assert!(is_sqrt_price_in_range(q96(0)));
    assert!(is_sqrt_price_in_range(Uint256 { limbs: [u64::MAX, u64::MAX, 0, 0] }));
    assert!(!is_sqrt_price_in_range(Uint256 { limbs: [0, 0, 1, 0] }));
    assert!(!is_sqrt_price_in_range(Uint256 { limbs: [0, 0, 0, 1] }));
}

#[test]
fn sqrt_price_is_monotone() {
    let mut last = 0;
    for n in 0..5000 {
        let price = sqrt_price_to_price(q96(n));
        assert!(price >= last);
        last = price;
    }
}

#[test]
fn v3_price_reads_the_first_word() {
    // Its square has the whole part 542880479, beyond the cap.
    assert_eq!(get_uniswap_v3_price(&word(1_846_000_000_000_000_000_000_000_000_012_345)), u64::MAX);
    let mut result = word(ONE * 12);
    result.extend(word(99));
    assert_eq!(get_uniswap_v3_price(&result), 144_000_000_000_000);
}

#[test]
fn v3_readability() {
    assert!(!is_slot0_readable(&[]));
    assert!(!is_slot0_readable(&[0; 31]));
    assert!(is_slot0_readable(&[0; 32]));
    assert!(is_slot0_readable(&word(u128::MAX)));
    let mut too_large = [0u8; 32];
    too_large[15] = 1;
    assert!(!is_slot0_readable(&too_large));
}

#[test]
fn v2_price_is_the_scaled_ratio() {
    assert_eq!(get_uniswap_v2_price(&reserves(3, 2)), 666_666_666_666_666_666);
    assert_eq!(
        get_uniswap_v2_price(&reserves(23_456_789_012_345_678_901, 45_678_901_234_567)),
        1_947_363_776_454,
    );
    assert_eq!(get_uniswap_v2_price(&reserves(7, 0)), 0);
}

#[test]
fn v2_price_without_first_reserve_is_zero() {
    assert_eq!(get_uniswap_v2_price(&reserves(0, 5)), 0);
    assert_eq!(get_uniswap_v2_price(&reserves(0, u128::MAX)), 0);
}

#[test]
fn v2_price_scales_and_ignores_the_tail() {
    let price = get_uniswap_v2_price(&reserves(3, 2));
    assert_eq!(get_uniswap_v2_price(&reserves(3 * 77, 2 * 77)), price);
    let mut longer = reserves(3, 2);
    longer.extend([9; 32]);
    assert_eq!(get_uniswap_v2_price(&longer), price);
}

#[test]
fn v2_readability() {
    assert!(!are_reserves_readable(&[1; 63]));
    assert!(are_reserves_readable(&reserves(3, 2)));
    // A zero first reserve makes any second one readable.
    let mut no_reserve0 = vec![0u8; 32];
    no_reserve0.extend([0xff; 32]);
    assert!(are_reserves_readable(&no_reserve0));
    // The ratio has to fit in 64 bits: 18 times the scale does, 19 times does not.
    assert!(are_reserves_readable(&reserves(1, 18)));
    assert!(!are_reserves_readable(&reserves(1, 19)));
    assert_eq!(get_uniswap_v2_price(&reserves(1, 18)), 18_000_000_000_000_000_000);
    // The scaled second reserve has to fit in 256 bits.
    let limit = [
        0x12u8, 0x72, 0x5d, 0xd1, 0xd2, 0x43, 0xab, 0xa0, 0xe7, 0x5f, 0xe6, 0x45, 0xcc, 0x48, 0x73,
        0xf9, 0xe6, 0x5a, 0xfe, 0x68, 0x8c, 0x92, 0x8e, 0x1f, 0x21,
    ];
    let mut at_limit = vec![0xffu8; 32];
    at_limit.extend([0u8; 7]);
    at_limit.extend(limit);
    assert!(are_reserves_readable(&at_limit));
    assert_eq!(get_uniswap_v2_price(&at_limit), 0);
    at_limit[63] += 1;
    assert!(!are_reserves_readable(&at_limit));
}

#[test]
fn last_swap_price_of_the_last_log() {
    assert_eq!(get_last_swap_price(&[swap_log(ONE * 5)]), 25_000_000_000_000);
    assert_eq!(
        get_last_swap_price(&[swap_log(ONE * 5), swap_log(ONE * 6)]),
        36_000_000_000_000,
    );
}

#[test]
fn default_price_without_a_readable_swap() {
    assert_eq!(DEFAULT_PRICE, 10_665_824_850_173_493_248);
    assert_eq!(DEFAULT_PRICE as u128, (1800 * 1_000_000_000_000_000_000u128) % (1u128 << 64));
    assert_eq!(get_last_swap_price(&[]), DEFAULT_PRICE);
    let mut no_topic = swap_log(ONE * 5);
    no_topic.topics.clear();
    assert_eq!(get_last_swap_price(&[swap_log(ONE), no_topic]), DEFAULT_PRICE);
    let mut short = swap_log(ONE * 5);
    short.data.pop();
    assert_eq!(get_last_swap_price(&[short]), DEFAULT_PRICE);
}

#[test]
fn swaps_readability() {
    assert!(are_swaps_readable(&[]));
    assert!(are_swaps_readable(&[swap_log(u128::MAX)]));
    let mut too_large = swap_log(0);
    too_large.data[143] = 1;
    assert!(!are_swaps_readable(&[too_large]));
    let mut too_large_no_topic = swap_log(0);
    too_large_no_topic.data[143] = 1;
    too_large_no_topic.topics.clear();
    assert!(are_swaps_readable(&[too_large_no_topic]));
}
