//! What to ask the chain for a pool's price, and what to make of the replies.

use crate::address::Address;
use crate::hexcode::{call_data, HexError, GET_RESERVES_CALL, SLOT0_CALL};
use crate::pools::{DexType, PoolConfig};
use crate::pricing::{
    are_reserves_readable, are_swaps_readable, get_last_swap_price, get_uniswap_v2_price,
    get_uniswap_v3_price, is_slot0_readable, last_swap, price_of_sqrt, reserves_price,
    reserves_readable, result_word, slot0_readable, swaps_readable,
};
use crate::primitives::LogEntry;
use vstd::pervasive::unreached;
use vstd::prelude::*;

verus! {

/// How many blocks before the latest a router's swaps are searched from.
pub const SWAP_BLOCKS: u64 = 100;

/// A request to the chain.
#[derive(Debug, PartialEq, Eq)]
pub enum ChainRequest {
    /// Call a contract with the given data.
    Call { to: Address, data: Vec<u8> },
    /// Ask for the number of the latest block.
    BlockNumber,
    /// Ask for the logs of a contract in a range of blocks, both ends included.
    Logs { address: Address, from_block: u64, to_block: u64 },
}

/// The reply to a request.
#[derive(Debug, PartialEq, Eq)]
pub enum ChainReply {
    CallResult(Vec<u8>),
    BlockNumber(u64),
    Logs(Vec<LogEntry>),
}

/// A price query under way: what its last request asked for.
#[derive(Debug, Clone, Copy, PartialEq, Eq)]
pub enum PriceQuery {
    /// The `slot0` of a Uniswap V3 pool.
    Slot0,
    /// The reserves of a Uniswap V2 pair.
    Reserves,
    /// The latest block, to search a router's logs up to it.
    LatestBlock { router: Address },
    /// A router's logs.
    Swaps,
}

/// What comes after a reply.
#[derive(Debug, PartialEq, Eq)]
pub enum QueryStep {
    /// One more request, and the query that waits for its reply.
    Ask(PriceQuery, ChainRequest),
    /// The price.
    Price(u64),
}

/// A request is the call of a contract with the given data.
pub open spec fn is_call(request: ChainRequest, to: Address, data: Seq<u8>) -> bool {
    &&& request is Call
    &&& request->to == to
    &&& request->data@ == data
}

/// The first request for a pool's price: `slot0` of a Uniswap V3 pool,
/// `getReserves` of a Uniswap V2 pair, the latest block for a router.
pub open spec fn begins(config: PoolConfig, query: PriceQuery, request: ChainRequest) -> bool {
    match config.dex_type {
        DexType::UniswapV3Pool => {
            &&& query == PriceQuery::Slot0
            &&& is_call(request, config.address, seq![0x38u8, 0x50u8, 0xc7u8, 0xbdu8])
        },
        DexType::UniswapV2Pair => {
            &&& query == PriceQuery::Reserves
            &&& is_call(request, config.address, seq![0x09u8, 0x02u8, 0xf1u8, 0xacu8])
        },
        DexType::Router | DexType::ZeroXRouter => {
            &&& query == PriceQuery::LatestBlock { router: config.address }
            &&& request == ChainRequest::BlockNumber
        },
    }
}

/// A reply that answers the query's request and can be computed with.
pub open spec fn usable(query: PriceQuery, reply: ChainReply) -> bool {
    match (query, reply) {
        (PriceQuery::Slot0, ChainReply::CallResult(result)) => slot0_readable(result@),
        (PriceQuery::Reserves, ChainReply::CallResult(result)) => reserves_readable(result@),
        (PriceQuery::LatestBlock { router }, ChainReply::BlockNumber(latest)) => latest
            >= SWAP_BLOCKS,
        (PriceQuery::Swaps, ChainReply::Logs(logs)) => swaps_readable(logs@),
        _ => false,
    }
}

/// What a usable reply leads to: the price that it holds, or the request for a
/// router's logs of the last blocks.
pub open spec fn advances(query: PriceQuery, reply: ChainReply, step: QueryStep) -> bool {
    match query {
        PriceQuery::Slot0 => step == QueryStep::Price(
            price_of_sqrt(result_word(reply->CallResult_0@, 0)),
        ),
        PriceQuery::Reserves => step == QueryStep::Price(
            reserves_price(
                result_word(reply->CallResult_0@, 0),
                result_word(reply->CallResult_0@, 1),
            ),
        ),
        PriceQuery::LatestBlock { router } => step == QueryStep::Ask(
            PriceQuery::Swaps,
            ChainRequest::Logs {
                address: router,
                from_block: (reply->BlockNumber_0 - SWAP_BLOCKS) as u64,
                to_block: reply->BlockNumber_0,
            },
        ),
        PriceQuery::Swaps => step == QueryStep::Price(last_swap(reply->Logs_0@)),
    }
}

/// How many replies a query still needs.
pub open spec fn replies_needed(query: PriceQuery) -> nat {
    match query {
        PriceQuery::LatestBlock { .. } => 2,
        _ => 1,
    }
}

/// Every reply brings a query nearer to its end, and the last one needed gives
/// the price.
pub proof fn law_query_ends(query: PriceQuery, reply: ChainReply, step: QueryStep)
    requires
        usable(query, reply),
        advances(query, reply, step),
    ensures
        match step {
            QueryStep::Ask(next, request) => replies_needed(next) + 1 == replies_needed(query),
            QueryStep::Price(price) => replies_needed(query) == 1,
        },
{
}

/// A Uniswap V3 pool is priced by the square-root price that its `slot0`
/// returns, and a Uniswap V2 pair by the reserves that its `getReserves`
/// returns.
pub proof fn law_pool_query(
    config: PoolConfig,
    query: PriceQuery,
    request: ChainRequest,
    reply: ChainReply,
    step: QueryStep,
)
    requires
        config.dex_type is UniswapV3Pool || config.dex_type is UniswapV2Pair,
        begins(config, query, request),
        usable(query, reply),
        advances(query, reply, step),
    ensures
        request is Call,
        request->to == config.address,
        reply is CallResult,
        ({
            let result = reply->CallResult_0@;
            step == QueryStep::Price(
                if config.dex_type is UniswapV3Pool {
                    price_of_sqrt(result_word(result, 0))
                } else {
                    reserves_price(result_word(result, 0), result_word(result, 1))
                },
            )
        }),
{
}

/// A router is priced by its last log of the last blocks up to the latest.
pub proof fn law_router_query(
    config: PoolConfig,
    query: PriceQuery,
    request: ChainRequest,
    head: ChainReply,
    next_query: PriceQuery,
    next_request: ChainRequest,
    reply: ChainReply,
    step: QueryStep,
)
    requires
        config.dex_type is Router || config.dex_type is ZeroXRouter,
        begins(config, query, request),
        usable(query, head),
        advances(query, head, QueryStep::Ask(next_query, next_request)),
        usable(next_query, reply),
        advances(next_query, reply, step),
    ensures
        request is BlockNumber,
        head is BlockNumber,
        next_request is Logs,
        next_request->address == config.address,
        next_request->to_block == head->BlockNumber_0,
        next_request->from_block == head->BlockNumber_0 - SWAP_BLOCKS,
        reply is Logs,
        step == QueryStep::Price(last_swap(reply->Logs_0@)),
{
}

impl PriceQuery {
    /// Starts a query for a pool's price.
    pub fn begin(config: &PoolConfig) -> (r: Result<(PriceQuery, ChainRequest), HexError>)
        ensures
            r is Ok,
            begins(*config, r->Ok_0.0, r->Ok_0.1),
    {
        match config.dex_type {
            DexType::UniswapV3Pool => {
                proof {
                    reveal_strlit("0x3850c7bd");
                }
                let data = call_data(SLOT0_CALL)?;
                assert(data@ =~= seq![0x38u8, 0x50u8, 0xc7u8, 0xbdu8]);
                Ok((PriceQuery::Slot0, ChainRequest::Call { to: config.address, data }))
            },
            DexType::UniswapV2Pair => {
                proof {
                    reveal_strlit("0x0902f1ac");
                }
                let data = call_data(GET_RESERVES_CALL)?;
                assert(data@ =~= seq![0x09u8, 0x02u8, 0xf1u8, 0xacu8]);
                Ok((PriceQuery::Reserves, ChainRequest::Call { to: config.address, data }))
            },
            DexType::Router | DexType::ZeroXRouter => {
                Ok((PriceQuery::LatestBlock { router: config.address }, ChainRequest::BlockNumber))
            },
        }
    }

    /// Tells whether a reply answers the query's request and can be computed
    /// with.
    pub fn can_use(&self, reply: &ChainReply) -> (r: bool)
        ensures
            r == usable(*self, *reply),
    {
        match (self, reply) {
            (PriceQuery::Slot0, ChainReply::CallResult(result)) => {
                is_slot0_readable(result.as_slice())
            },
            (PriceQuery::Reserves, ChainReply::CallResult(result)) => {
                are_reserves_readable(result.as_slice())
            },
            (PriceQuery::LatestBlock { .. }, ChainReply::BlockNumber(latest)) => {
                *latest >= SWAP_BLOCKS
            },
            (PriceQuery::Swaps, ChainReply::Logs(logs)) => are_swaps_readable(logs.as_slice()),
            _ => false,
        }
    }

    /// Takes the query's reply.
    pub fn advance(&self, reply: &ChainReply) -> (step: QueryStep)
        requires
            usable(*self, *reply),
        ensures
            advances(*self, *reply, step),
    {
        match (self, reply) {
            (PriceQuery::Slot0, ChainReply::CallResult(result)) => {
                QueryStep::Price(get_uniswap_v3_price(result.as_slice()))
            },
            (PriceQuery::Reserves, ChainReply::CallResult(result)) => {
                QueryStep::Price(get_uniswap_v2_price(result.as_slice()))
            },
            (PriceQuery::LatestBlock { router }, ChainReply::BlockNumber(latest)) => {
                QueryStep::Ask(
                    PriceQuery::Swaps,
                    ChainRequest::Logs {
                        address: *router,
                        from_block: *latest - SWAP_BLOCKS,
                        to_block: *latest,
                    },
                )
            },
            (PriceQuery::Swaps, ChainReply::Logs(logs)) => {
                QueryStep::Price(get_last_swap_price(logs.as_slice()))
            },
            _ => unreached(),
        }
    }
}

} // verus!
