//! What the pool table, the price queries and the start are for, in terms of
//! what goes in and what comes out.

use crate::address::{law_prefixed_digits_parse, Address, InvalidAddress};
use crate::feed::Feed;
use crate::hexcode::HexError;
use crate::pools::{find_pool, pool_address, pool_configs, PoolConfig, DEX_ADDRESSES};
use crate::pricing::{
    are_reserves_readable, are_swaps_readable, get_last_swap_price, get_uniswap_v2_price,
    get_uniswap_v3_price, is_slot0_readable,
};
use crate::primitives::LogEntry;
use crate::query::{ChainReply, ChainRequest, PriceQuery, QueryStep};
use crate::startup::{PriceStore, Startup};
use vstd::prelude::*;

verus! {

/// The addresses of the pools, byte by byte.
pub open spec fn known_address(id: int) -> Seq<u8> {
    if id == 0 {
        seq![
            0x88u8, 0xe6, 0xa0, 0xc2, 0xdd, 0xd2, 0x6f, 0xee, 0xb6, 0x4f,
            0x03, 0x9a, 0x2c, 0x41, 0x29, 0x6f, 0xcb, 0x3f, 0x56, 0x40,
        ]
    } else if id == 1 {
        seq![
            0x39u8, 0x7f, 0xf1, 0x54, 0x2f, 0x96, 0x20, 0x76, 0xd0, 0xbf,
            0xe5, 0x8e, 0xa0, 0x45, 0xff, 0xa2, 0xd3, 0x47, 0xac, 0xa0,
        ]
    } else if id == 2 {
        seq![
            0x56u8, 0x49, 0xb4, 0xdd, 0x00, 0x78, 0x0e, 0x99, 0xba, 0xb7,
            0xab, 0xb4, 0xa3, 0xd5, 0x81, 0xea, 0x1a, 0xeb, 0x23, 0xd0,
        ]
    } else {
        seq![
            0xdeu8, 0xf1, 0xc0, 0xde, 0xd9, 0xbe, 0xc7, 0xf1, 0xa1, 0x67,
            0x08, 0x19, 0x83, 0x32, 0x40, 0xf0, 0x27, 0xb2, 0x5e, 0xff,
        ]
    }
}

/// The known addresses are those that the texts of the table stand for.
pub proof fn lemma_known_addresses()
    ensures
        forall|id: int| 0 <= id < 4 ==> #[trigger] pool_address(id) == known_address(id),
{
    reveal_strlit("0x88e6A0c2dDD26FEEb64F039a2C41296FcB3f5640");
    law_prefixed_digits_parse(DEX_ADDRESSES@[0]@);
    assert(pool_address(0) =~= known_address(0));
    reveal_strlit("0x397FF1542f962076d0BFE58EA045FFA2D347ACa0");
    law_prefixed_digits_parse(DEX_ADDRESSES@[1]@);
    assert(pool_address(1) =~= known_address(1));
    reveal_strlit("0x5649B4DD00780e99Bab7Abb4A3d581Ea1aEB23D0");
    law_prefixed_digits_parse(DEX_ADDRESSES@[2]@);
    assert(pool_address(2) =~= known_address(2));
    reveal_strlit("0xdef1c0ded9bec7f1a1670819833240f027b25eff");
    law_prefixed_digits_parse(DEX_ADDRESSES@[3]@);
    assert(pool_address(3) =~= known_address(3));
}

/// The known addresses differ in their first byte.
pub proof fn lemma_known_addresses_differ(id: int, other: int)
    requires
        0 <= id < 4,
        0 <= other < 4,
        id != other,
    ensures
        known_address(id) != known_address(other),
{
    assert(known_address(id)[0] != known_address(other)[0]);
}

/// There are four pools, with the ids 0 to 3 in their order: a Uniswap V3 pool,
/// a Uniswap V2 pair, a router and a 0x router, each with its address and name.
pub proof fn law_pools(r: Result<Vec<PoolConfig>, InvalidAddress>)
    requires
        call_ensures(pool_configs, (), r),
    ensures
        call_requires(pool_configs, ()),
        r is Ok,
        r->Ok_0@.len() == 4,
        forall|id: int|
            0 <= id < 4 ==> {
                &&& (#[trigger] r->Ok_0@[id]).id == id
                &&& r->Ok_0@[id].address.bytes@ == known_address(id)
            },
        r->Ok_0@[0].dex_type is UniswapV3Pool,
        r->Ok_0@[1].dex_type is UniswapV2Pair,
        r->Ok_0@[2].dex_type is Router,
        r->Ok_0@[3].dex_type is ZeroXRouter,
        r->Ok_0@[0].name@ == "UniswapV3 USDC/WETH"@,
        r->Ok_0@[1].name@ == "USDC/WETH Pair"@,
        r->Ok_0@[2].name@ == "Router Contract"@,
        r->Ok_0@[3].name@ == "0x Router"@,
{
    lemma_known_addresses();
    let configs = r->Ok_0@;
    assert(configs[0].id == 0 && configs[1].id == 1 && configs[2].id == 2 && configs[3].id == 3);
}

/// The pool at a known address is the one with that address's id, and there is
/// none at any other.
pub proof fn law_pool_lookup(address: &Address, r: Option<usize>)
    requires
        call_ensures(find_pool, (address,), r),
    ensures
        call_requires(find_pool, (address,)),
        forall|id: int| 0 <= id < 4 && address.bytes@ == #[trigger] known_address(id) ==> r == Some(
            id as usize,
        ),
        (forall|id: int| 0 <= id < 4 ==> address.bytes@ != #[trigger] known_address(id)) ==> r
            is None,
        r is Some ==> r->0 < 4 && address.bytes@ == known_address(r->0 as int),
{
    lemma_known_addresses();
    assert forall|id: int| 0 <= id < 4 && address.bytes@ == #[trigger] known_address(
        id,
    ) implies r == Some(id as usize) by {
        assert forall|other: int| 0 <= other < 4 && other != id implies #[trigger] known_address(
            other,
        ) != known_address(id) by {
            lemma_known_addresses_differ(id, other);
        }
        assert(pool_address(0) == known_address(0));
        assert(pool_address(1) == known_address(1));
        assert(pool_address(2) == known_address(2));
        assert(pool_address(3) == known_address(3));
    }
    assert(pool_address(0) == known_address(0));
    assert(pool_address(1) == known_address(1));
    assert(pool_address(2) == known_address(2));
    assert(pool_address(3) == known_address(3));
}

/// A new feed has the four pools and neither a thread nor a channel.
pub proof fn law_new_feed(
    r: Result<Feed, InvalidAddress>,
    configs: Result<Vec<PoolConfig>, InvalidAddress>,
)
    requires
        call_ensures(Feed::new, (), r),
        call_ensures(pool_configs, (), configs),
    ensures
        call_requires(Feed::new, ()),
        r is Ok,
        r->Ok_0.pool_configs@.len() == 4,
        forall|id: int|
            0 <= id < 4 ==> {
                &&& (#[trigger] r->Ok_0.pool_configs@[id]).id == id
                &&& r->Ok_0.pool_configs@[id].address.bytes@ == known_address(id)
                &&& r->Ok_0.pool_configs@[id].dex_type == configs->Ok_0@[id].dex_type
                &&& r->Ok_0.pool_configs@[id].name@ == configs->Ok_0@[id].name@
            },
        r->Ok_0.pool_threads@.len() == 0,
        r->Ok_0.tx_senders@.len() == 0,
{
    law_pools(configs);
    lemma_known_addresses();
    assert forall|id: int| 0 <= id < 4 implies {
        &&& (#[trigger] r->Ok_0.pool_configs@[id]).id == id
        &&& r->Ok_0.pool_configs@[id].address.bytes@ == known_address(id)
        &&& r->Ok_0.pool_configs@[id].dex_type == configs->Ok_0@[id].dex_type
        &&& r->Ok_0.pool_configs@[id].name@ == configs->Ok_0@[id].name@
    } by {
        assert(pool_address(id) == known_address(id));
        assert(configs->Ok_0@[id].id == id);
    }
}

/// Starting the monitors hands out every pool once, in order, gives each a
/// channel at its place, replacing earlier channels, and adds a thread for each
/// behind the earlier ones.
pub proof fn law_monitors_started(feed: &mut Feed, started: Vec<PoolConfig>)
    requires
        call_ensures(Feed::start_monitoring, (feed,), started),
    ensures
        call_requires(Feed::start_monitoring, (feed,)),
        ({
            let n = old(feed).pool_configs@.len();
            let before = old(feed).pool_threads@.len();
            &&& started@ == old(feed).pool_configs@
            &&& final(feed).pool_configs@ == old(feed).pool_configs@
            &&& final(feed).tx_senders@.len() == n
            &&& final(feed).pool_threads@.len() == before + n
            &&& forall|i: int|
                0 <= i < n ==> #[trigger] final(feed).tx_senders@[i] == started@[i].id
            &&& forall|i: int|
                0 <= i < before ==> #[trigger] final(feed).pool_threads@[i]
                    == old(feed).pool_threads@[i]
            &&& forall|i: int|
                before <= i < before + n ==> #[trigger] final(feed).pool_threads@[i]
                    == started@[i - before].id
        }),
{
}

/// A start has taken no price, and asks for that of the first pool.
pub proof fn law_start_begins(
    configs: Vec<PoolConfig>,
    startup: Startup,
    next: Option<PoolConfig>,
)
    requires
        call_ensures(Startup::new, (configs,), startup),
        call_ensures(Startup::next_pool, (&startup,), next),
    ensures
        call_requires(Startup::new, (configs,)),
        call_requires(Startup::next_pool, (&startup,)),
        startup.configs@ == configs@,
        startup.priced == 0,
        configs@.len() == 0 ==> next is None,
        configs@.len() > 0 ==> next == Some(configs@[0]),
{
}

/// The pool that a start asks for next is the first without a price, and there
/// is none once all have theirs. A price taken is to be stored for that pool,
/// as it is, and the pool after it is next.
pub proof fn law_start_goes_on(
    startup: &mut Startup,
    next: Option<PoolConfig>,
    price: u64,
    store: PriceStore,
)
    requires
        startup.priced <= startup.configs@.len(),
        call_ensures(Startup::next_pool, (&*startup,), next),
        startup.priced < startup.configs@.len() ==> call_ensures(
            Startup::take_price,
            (startup, price),
            store,
        ),
    ensures
        old(startup).priced == old(startup).configs@.len() ==> next is None,
        old(startup).priced < old(startup).configs@.len() ==> {
            &&& call_requires(Startup::take_price, (startup, price))
            &&& next == Some(old(startup).configs@[old(startup).priced as int])
            &&& store.pool_id == next->0.id
            &&& store.price == price
            &&& final(startup).configs@ == old(startup).configs@
            &&& final(startup).priced == old(startup).priced + 1
        },
{
}

/// A Uniswap V3 pool is asked for `slot0()`, a Uniswap V2 pair for
/// `getReserves()`, at the pool's address; a router begins with the latest
/// block.
pub proof fn law_query_begins(
    config: &PoolConfig,
    r: Result<(PriceQuery, ChainRequest), HexError>,
)
    requires
        call_ensures(PriceQuery::begin, (config,), r),
    ensures
        call_requires(PriceQuery::begin, (config,)),
        r is Ok,
        config.dex_type is UniswapV3Pool ==> {
            &&& r->Ok_0.0 is Slot0
            &&& r->Ok_0.1 is Call
            &&& r->Ok_0.1->to.bytes@ == config.address.bytes@
            &&& r->Ok_0.1->data@ == seq![0x38u8, 0x50, 0xc7, 0xbd]
        },
        config.dex_type is UniswapV2Pair ==> {
            &&& r->Ok_0.0 is Reserves
            &&& r->Ok_0.1 is Call
            &&& r->Ok_0.1->to.bytes@ == config.address.bytes@
            &&& r->Ok_0.1->data@ == seq![0x09u8, 0x02, 0xf1, 0xac]
        },
        config.dex_type is Router || config.dex_type is ZeroXRouter ==> {
            &&& r->Ok_0.0 is LatestBlock
            &&& r->Ok_0.0->router.bytes@ == config.address.bytes@
            &&& r->Ok_0.1 is BlockNumber
        },
{
}

/// The reply to `slot0()` gives the price that is read from it, and is refused
/// just where none can be.
pub proof fn law_query_of_slot0(
    result: Vec<u8>,
    bytes: &[u8],
    usable: bool,
    readable: bool,
    step: QueryStep,
    price: u64,
)
    requires
        bytes@ == result@,
        call_ensures(
            PriceQuery::can_use,
            (&PriceQuery::Slot0, &ChainReply::CallResult(result)),
            usable,
        ),
        call_ensures(is_slot0_readable, (bytes,), readable),
        usable ==> call_ensures(
            PriceQuery::advance,
            (&PriceQuery::Slot0, &ChainReply::CallResult(result)),
            step,
        ),
        usable ==> call_ensures(get_uniswap_v3_price, (bytes,), price),
    ensures
        usable == readable,
        usable ==> call_requires(
            PriceQuery::advance,
            (&PriceQuery::Slot0, &ChainReply::CallResult(result)),
        ),
        usable ==> step == QueryStep::Price(price),
{
}

/// The reply to `getReserves()` gives the price that is read from it, and is
/// refused just where none can be.
pub proof fn law_query_of_reserves(
    result: Vec<u8>,
    bytes: &[u8],
    usable: bool,
    readable: bool,
    step: QueryStep,
    price: u64,
)
    requires
        bytes@ == result@,
        call_ensures(
            PriceQuery::can_use,
            (&PriceQuery::Reserves, &ChainReply::CallResult(result)),
            usable,
        ),
        call_ensures(are_reserves_readable, (bytes,), readable),
        usable ==> call_ensures(
            PriceQuery::advance,
            (&PriceQuery::Reserves, &ChainReply::CallResult(result)),
            step,
        ),
        usable ==> call_ensures(get_uniswap_v2_price, (bytes,), price),
    ensures
        usable == readable,
        usable ==> call_requires(
            PriceQuery::advance,
            (&PriceQuery::Reserves, &ChainReply::CallResult(result)),
        ),
        usable ==> step == QueryStep::Price(price),
{
}

/// The latest block, from number 100 on, leads to the request for the router's
/// logs of the last 100 blocks up to it; a lower one is refused.
pub proof fn law_query_of_latest_block(
    router: Address,
    latest: u64,
    usable: bool,
    step: QueryStep,
)
    requires
        call_ensures(
            PriceQuery::can_use,
            (&PriceQuery::LatestBlock { router }, &ChainReply::BlockNumber(latest)),
            usable,
        ),
        usable ==> call_ensures(
            PriceQuery::advance,
            (&PriceQuery::LatestBlock { router }, &ChainReply::BlockNumber(latest)),
            step,
        ),
    ensures
        usable <==> latest >= 100,
        usable ==> call_requires(
            PriceQuery::advance,
            (&PriceQuery::LatestBlock { router }, &ChainReply::BlockNumber(latest)),
        ),
        usable ==> {
            &&& step is Ask
            &&& step->Ask_0 is Swaps
            &&& step->Ask_1 is Logs
            &&& step->Ask_1->address.bytes@ == router.bytes@
            &&& step->Ask_1->from_block + 100 == latest
            &&& step->Ask_1->to_block == latest
        },
{
}

/// A router's logs give the price that is read from them, and are refused just
/// where none can be.
pub proof fn law_query_of_swaps(
    logs: Vec<LogEntry>,
    entries: &[LogEntry],
    usable: bool,
    readable: bool,
    step: QueryStep,
    price: u64,
)
    requires
        entries@ == logs@,
        call_ensures(
            PriceQuery::can_use,
            (&PriceQuery::Swaps, &ChainReply::Logs(logs)),
            usable,
        ),
        call_ensures(are_swaps_readable, (entries,), readable),
        usable ==> call_ensures(
            PriceQuery::advance,
            (&PriceQuery::Swaps, &ChainReply::Logs(logs)),
            step,
        ),
        usable ==> call_ensures(get_last_swap_price, (entries,), price),
    ensures
        usable == readable,
        usable ==> call_requires(
            PriceQuery::advance,
            (&PriceQuery::Swaps, &ChainReply::Logs(logs)),
        ),
        usable ==> step == QueryStep::Price(price),
{
}

/// A reply of another kind than was asked for is refused.
pub proof fn law_query_refuses_other_replies(query: PriceQuery, reply: ChainReply, usable: bool)
    requires
        (query is Slot0 || query is Reserves) && !(reply is CallResult) || query is LatestBlock && !(
        reply is BlockNumber) || query is Swaps && !(reply is Logs),
        call_ensures(PriceQuery::can_use, (&query, &reply), usable),
    ensures
        !usable,
{
}

} // verus!
