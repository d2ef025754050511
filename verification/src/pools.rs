//! The pools that the feed watches.

use crate::address::{law_prefixed_digits_parse, parsed_address, Address, InvalidAddress};
use vstd::prelude::*;

verus! {

/// The number of pools.
pub const DEXCOUNT: usize = 4;

/// The addresses of the pools, by pool id.
pub const DEX_ADDRESSES: [&'static str; DEXCOUNT] = [
    "0x88e6A0c2dDD26FEEb64F039a2C41296FcB3f5640",
    "0x397FF1542f962076d0BFE58EA045FFA2D347ACa0",
    "0x5649B4DD00780e99Bab7Abb4A3d581Ea1aEB23D0",
    "0xdef1c0ded9bec7f1a1670819833240f027b25eff",
];

/// How a pool's price is read, and how far a transaction moves it.
#[derive(Debug, Clone, Copy, PartialEq, Eq, Structural)]
pub enum DexType {
    UniswapV3Pool,
    UniswapV2Pair,
    Router,
    ZeroXRouter,
}

/// A pool that the feed watches.
#[derive(Debug, Clone, Copy, PartialEq, Eq)]
pub struct PoolConfig {
    pub id: usize,
    pub address: Address,
    pub dex_type: DexType,
    pub name: &'static str,
}

/// The address of the pool with the given id.
pub open spec fn pool_address(id: int) -> Seq<u8> {
    parsed_address(DEX_ADDRESSES@[id]@)->0
}

/// The type of the pool with the given id.
pub open spec fn pool_type(id: int) -> DexType {
    if id == 0 {
        DexType::UniswapV3Pool
    } else if id == 1 {
        DexType::UniswapV2Pair
    } else if id == 2 {
        DexType::Router
    } else {
        DexType::ZeroXRouter
    }
}

/// The name of the pool with the given id.
pub open spec fn pool_name(id: int) -> Seq<char> {
    if id == 0 {
        "UniswapV3 USDC/WETH"@
    } else if id == 1 {
        "USDC/WETH Pair"@
    } else if id == 2 {
        "Router Contract"@
    } else {
        "0x Router"@
    }
}

/// A configuration is that of the pool with the given id.
pub open spec fn configures(config: PoolConfig, id: int) -> bool {
    &&& config.id == id
    &&& config.address@ == pool_address(id)
    &&& config.dex_type == pool_type(id)
    &&& config.name@ == pool_name(id)
}

/// The configurations of all pools, in the order of their ids.
pub open spec fn is_pool_table(configs: Seq<PoolConfig>) -> bool {
    &&& configs.len() == DEXCOUNT
    &&& forall|id: int| 0 <= id < DEXCOUNT ==> configures(#[trigger] configs[id], id)
}

/// The pool at an address: the least id with that address.
pub open spec fn pool_at(address: Seq<u8>) -> Option<int> {
    if address == pool_address(0) {
        Some(0)
    } else if address == pool_address(1) {
        Some(1)
    } else if address == pool_address(2) {
        Some(2)
    } else if address == pool_address(3) {
        Some(3)
    } else {
        None
    }
}

/// The texts of the addresses: forty hexadecimal digits behind a `0x` each, of
/// which the first two tell the pools apart.
proof fn lemma_address_texts(id: int)
    requires
        0 <= id < DEXCOUNT,
    ensures
        parsed_address(DEX_ADDRESSES@[id]@) == Some(pool_address(id)),
        pool_address(id).len() == 20,
        pool_address(id)[0] == seq![0x88u8, 0x39u8, 0x56u8, 0xdeu8][id],
{
    reveal_strlit("0x88e6A0c2dDD26FEEb64F039a2C41296FcB3f5640");
    reveal_strlit("0x397FF1542f962076d0BFE58EA045FFA2D347ACa0");
    reveal_strlit("0x5649B4DD00780e99Bab7Abb4A3d581Ea1aEB23D0");
    reveal_strlit("0xdef1c0ded9bec7f1a1670819833240f027b25eff");
    law_prefixed_digits_parse(DEX_ADDRESSES@[id]@);
}

/// The text of every pool's address is an address.
pub proof fn law_pool_addresses_parse(id: int)
    requires
        0 <= id < DEXCOUNT,
    ensures
        parsed_address(DEX_ADDRESSES@[id]@) == Some(pool_address(id)),
        pool_address(id).len() == 20,
{
    lemma_address_texts(id);
}

/// The pools have distinct addresses.
pub proof fn law_pool_addresses_distinct(id: int, other: int)
    requires
        0 <= id < DEXCOUNT,
        0 <= other < DEXCOUNT,
        id != other,
    ensures
        pool_address(id) != pool_address(other),
{
    lemma_address_texts(id);
    lemma_address_texts(other);
}

/// Two tables of the pools agree at every position, and within each the
/// addresses are pairwise distinct.
pub proof fn law_pool_tables_agree(a: Seq<PoolConfig>, b: Seq<PoolConfig>)
    requires
        is_pool_table(a),
        is_pool_table(b),
    ensures
        a.len() == b.len() == DEXCOUNT,
        forall|i: int|
            #![trigger a[i]]
            #![trigger b[i]]
            0 <= i < DEXCOUNT ==> {
                &&& a[i].id == b[i].id == i
                &&& a[i].address@ == b[i].address@
                &&& a[i].dex_type == b[i].dex_type
                &&& a[i].name@ == b[i].name@
            },
        forall|i: int, j: int|
            0 <= i < j < DEXCOUNT ==> (#[trigger] a[i]).address@ != (#[trigger] a[j]).address@,
        forall|i: int, j: int|
            0 <= i < j < DEXCOUNT ==> (#[trigger] b[i]).address@ != (#[trigger] b[j]).address@,
{
    assert forall|i: int, j: int| 0 <= i < j < DEXCOUNT implies (#[trigger] a[i]).address@ != (
    #[trigger] a[j]).address@ && b[i].address@ != b[j].address@ by {
        law_pool_addresses_distinct(i, j);
        assert(configures(a[i], i) && configures(a[j], j));
        assert(configures(b[i], i) && configures(b[j], j));
    }
    assert forall|i: int, j: int| 0 <= i < j < DEXCOUNT implies (#[trigger] b[i]).address@ != (
    #[trigger] b[j]).address@ by {
        assert(a[i].address@ != a[j].address@);
    }
}

/// A pool's address leads to that pool.
pub proof fn law_pool_found_at_its_address(id: int)
    requires
        0 <= id < DEXCOUNT,
    ensures
        pool_at(pool_address(id)) == Some(id),
{
    assert forall|other: int| 0 <= other < DEXCOUNT && other != id implies #[trigger] pool_address(
        other,
    ) != pool_address(id) by {
        law_pool_addresses_distinct(other, id);
    }
}

/// The configurations of all pools.
pub fn pool_configs() -> (r: Result<Vec<PoolConfig>, InvalidAddress>)
    ensures
        r is Ok,
        is_pool_table(r->Ok_0@),
{
    proof {
        law_pool_addresses_parse(0);
        law_pool_addresses_parse(1);
        law_pool_addresses_parse(2);
        law_pool_addresses_parse(3);
    }
    let address0 = Address::parse(DEX_ADDRESSES[0])?;
    let address1 = Address::parse(DEX_ADDRESSES[1])?;
    let address2 = Address::parse(DEX_ADDRESSES[2])?;
    let address3 = Address::parse(DEX_ADDRESSES[3])?;
    let configs = vec![
        PoolConfig {
            id: 0,
            address: address0,
            dex_type: DexType::UniswapV3Pool,
            name: "UniswapV3 USDC/WETH",
        },
        PoolConfig {
            id: 1,
            address: address1,
            dex_type: DexType::UniswapV2Pair,
            name: "USDC/WETH Pair",
        },
        PoolConfig {
            id: 2,
            address: address2,
            dex_type: DexType::Router,
            name: "Router Contract",
        },
        PoolConfig {
            id: 3,
            address: address3,
            dex_type: DexType::ZeroXRouter,
            name: "0x Router",
        },
    ];
    Ok(configs)
}

/// Finds the pool at an address.
pub fn find_pool(address: &Address) -> (r: Option<usize>)
    ensures
        match r {
            Some(id) => pool_at(address@) == Some(id as int),
            None => pool_at(address@) is None,
        },
{
    let mut id: usize = 0;
    while id < DEXCOUNT
        invariant
            id <= DEXCOUNT,
            forall|other: int| 0 <= other < id ==> #[trigger] pool_address(other) != address@,
        decreases DEXCOUNT - id,
    {
        proof {
            law_pool_addresses_parse(id as int);
        }
        if let Ok(pool_address) = Address::parse(DEX_ADDRESSES[id]) {
            if pool_address.same(address) {
                return Some(id);
            }
        }
        id = id + 1;
    }
    None
}

} // verus!
