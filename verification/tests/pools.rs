use price_feed::address::{Address, InvalidAddress};
use price_feed::hexcode::{call_data, HexError, GET_RESERVES_CALL, SLOT0_CALL};
use price_feed::pools::{find_pool, pool_configs, DexType, DEXCOUNT, DEX_ADDRESSES};

#[test]
fn addresses_are_read_in_either_case() {
    let expected = [
        0xde, 0xf1, 0xc0, 0xde, 0xd9, 0xbe, 0xc7, 0xf1, 0xa1, 0x67, 0x08, 0x19, 0x83, 0x32, 0x40,
        0xf0, 0x27, 0xb2, 0x5e, 0xff,
    ];
    let lower = Address::parse("0xdef1c0ded9bec7f1a1670819833240f027b25eff").unwrap();
    let upper = Address::parse("DEF1C0DED9BEC7F1A1670819833240F027B25EFF").unwrap();
    assert_eq!(lower.bytes, expected);
    assert!(lower.same(&upper));
    assert_eq!(lower, upper);
}

#[test]
fn blanks_in_an_address_are_skipped() {
    let spaced = Address::parse("0x def1c0de d9bec7f1\ta1670819\r\n833240f027b25eff ").unwrap();
    assert_eq!(spaced, Address::parse(DEX_ADDRESSES[3]).unwrap());
}

#[test]
fn what_is_no_address_is_refused() {
    for text in [
        "",
        "0x",
        "0xdef1c0ded9bec7f1a1670819833240f027b25ef",
        "0xdef1c0ded9bec7f1a1670819833240f027b25eff0",
        "0xdef1c0ded9bec7f1a1670819833240f027b25eff00",
        "0xgef1c0ded9bec7f1a1670819833240f027b25eff",
        " 0xdef1c0ded9bec7f1a1670819833240f027b25eff",
        "0Xdef1c0ded9bec7f1a1670819833240f027b25eff",
        "0xdef1c0ded9bec7f1a1670819833240f027b25e\u{fb00}",
    ] {
        assert_eq!(Address::parse(text), Err(InvalidAddress));
    }
}

#[test]
fn addresses_that_differ_in_one_byte_differ() {
    let one = Address { bytes: [1; 20] };
    for i in 0..20 {
        let mut other = one;
        other.bytes[i] = 2;
        assert!(!one.same(&other));
    }
    assert!(one.same(&one));
}

#[test]
fn pools_are_configured_by_id() {
    let configs = pool_configs().unwrap();
    assert_eq!(configs.len(), DEXCOUNT);
    let types = [
        DexType::UniswapV3Pool,
        DexType::UniswapV2Pair,
        DexType::Router,
        DexType::ZeroXRouter,
    ];
    let names = ["UniswapV3 USDC/WETH", "USDC/WETH Pair", "Router Contract", "0x Router"];
    for (id, config) in configs.iter().enumerate() {
        assert_eq!(config.id, id);
        assert_eq!(config.address, Address::parse(DEX_ADDRESSES[id]).unwrap());
        assert_eq!(config.dex_type, types[id]);
        assert_eq!(config.name, names[id]);
    }
    assert_eq!(configs[0].address.bytes[..3], [0x88, 0xe6, 0xa0]);
}

#[test]
fn each_pool_is_found_at_its_address() {
    let configs = pool_configs().unwrap();
    for config in &configs {
        assert_eq!(find_pool(&config.address), Some(config.id));
    }
    let mut elsewhere = configs[0].address;
    elsewhere.bytes[19] ^= 1;
    assert_eq!(find_pool(&elsewhere), None);
}

#[test]
fn call_data_of_the_selectors() {
    assert_eq!(call_data(SLOT0_CALL), Ok(vec![0x38, 0x50, 0xc7, 0xbd]));
    assert_eq!(call_data(GET_RESERVES_CALL), Ok(vec![0x09, 0x02, 0xf1, 0xac]));
    assert_eq!(call_data("0x"), Ok(vec![]));
    assert_eq!(call_data("0xaF0b"), Ok(vec![0xaf, 0x0b]));
}

#[test]
fn call_data_refuses_what_is_not_hexadecimal() {
    assert_eq!(call_data("0x123"), Err(HexError::OddLength));
    assert_eq!(call_data("0x1zz"), Err(HexError::OddLength));
    assert_eq!(
        call_data("0x12g4z5"),
        Err(HexError::InvalidHexCharacter { c: 'g', index: 2 }),
    );
}
