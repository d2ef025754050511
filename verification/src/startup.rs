//! The first prices of the pools.

use crate::board::Board;
use crate::pools::{configures, is_pool_table, PoolConfig, DEXCOUNT};
use vstd::prelude::*;

verus! {

/// A price to be stored for a pool.
#[derive(Debug, Clone, Copy, PartialEq, Eq)]
pub struct PriceStore {
    pub pool_id: usize,
    pub price: u64,
}

/// The start of the feed: the pools, and how many of them have their price.
#[derive(Debug, PartialEq, Eq)]
pub struct Startup {
    pub configs: Vec<PoolConfig>,
    pub priced: usize,
}

impl Startup {
    /// No more pools have their price than there are.
    pub open spec fn well_formed(self) -> bool {
        self.priced <= self.configs@.len()
    }

    /// No pool has its price yet, and the shared memory is as it was.
    pub fn new(configs: Vec<PoolConfig>) -> (startup: Startup)
        ensures
            startup.well_formed(),
            startup.configs == configs,
            startup.priced == 0,
            forall|board: Board|
                #[trigger] initialized(board, configs@, Seq::<u64>::empty()) == board,
    {
        Startup { configs, priced: 0 }
    }

    /// The pool whose price is asked for next; none where all have theirs.
    pub fn next_pool(&self) -> (r: Option<PoolConfig>)
        requires
            self.well_formed(),
        ensures
            r == (if self.priced < self.configs@.len() {
                Some(self.configs@[self.priced as int])
            } else {
                None
            }),
    {
        if self.priced < self.configs.len() {
            Some(self.configs[self.priced])
        } else {
            None
        }
    }

    /// Takes the price of the next pool.
    pub fn take_price(&mut self, price: u64) -> (store: PriceStore)
        requires
            old(self).well_formed(),
            old(self).priced < old(self).configs@.len(),
        ensures
            final(self).well_formed(),
            final(self).configs == old(self).configs,
            final(self).priced == old(self).priced + 1,
            store == (PriceStore {
                pool_id: old(self).configs@[old(self).priced as int].id,
                price,
            }),
            forall|board: Board, prices: Seq<u64>|
                prices.len() == old(self).priced ==> #[trigger] initialized(
                    board,
                    old(self).configs@,
                    prices.push(price),
                ) == initialized(board, old(self).configs@, prices).stored(
                    store.pool_id as int,
                    store.price,
                ),
    {
        let store = PriceStore { pool_id: self.configs[self.priced].id, price };
        proof {
            assert forall|board: Board, prices: Seq<u64>| prices.len()
                == self.priced implies #[trigger] initialized(
                board,
                self.configs@,
                prices.push(price),
            ) == initialized(board, self.configs@, prices).stored(
                store.pool_id as int,
                store.price,
            ) by {
                law_each_price_is_stored(board, self.configs@, prices, price);
            }
        }
        assert(self.priced < self.configs.len());
        self.priced = self.priced + 1;
        store
    }
}

/// The shared memory after the first pools have their prices.
pub open spec fn initialized(board: Board, configs: Seq<PoolConfig>, prices: Seq<u64>) -> Board
    decreases prices.len(),
{
    if prices.len() == 0 {
        board
    } else {
        initialized(board, configs, prices.drop_last()).stored(
            configs[prices.len() - 1].id as int,
            prices.last(),
        )
    }
}

/// One more price is stored in the place of the next pool.
pub proof fn law_each_price_is_stored(
    board: Board,
    configs: Seq<PoolConfig>,
    prices: Seq<u64>,
    price: u64,
)
    requires
        prices.len() < configs.len(),
    ensures
        initialized(board, configs, prices.push(price)) == initialized(
            board,
            configs,
            prices,
        ).stored(configs[prices.len() as int].id as int, price),
{
    assert(prices.push(price).drop_last() =~= prices);
}

/// Pools that each have a place of their own in the shared memory.
pub open spec fn have_own_places(configs: Seq<PoolConfig>) -> bool {
    &&& forall|i: int| 0 <= i < configs.len() ==> (#[trigger] configs[i]).id < DEXCOUNT
    &&& forall|i: int, j: int|
        0 <= i < j < configs.len() ==> (#[trigger] configs[i]).id != (#[trigger] configs[j]).id
}

/// Whatever pools there are, as long as each has a place of its own: a pool
/// that got its price has it in its place, all other places keep what was
/// there, and no flag changes.
pub proof fn law_prices_in_their_places(
    board: Board,
    configs: Seq<PoolConfig>,
    prices: Seq<u64>,
)
    requires
        board.well_formed(),
        have_own_places(configs),
        prices.len() <= configs.len(),
    ensures
        initialized(board, configs, prices).well_formed(),
        initialized(board, configs, prices).flags == board.flags,
        forall|i: int|
            0 <= i < prices.len() ==> initialized(board, configs, prices).prices[(
            #[trigger] configs[i]).id as int] == prices[i],
        forall|slot: int|
            0 <= slot < DEXCOUNT && (forall|i: int|
                0 <= i < prices.len() ==> (#[trigger] configs[i]).id != slot)
                ==> #[trigger] initialized(board, configs, prices).prices[slot]
                == board.prices[slot],
    decreases prices.len(),
{
    if prices.len() > 0 {
        law_prices_in_their_places(board, configs, prices.drop_last());
        let last = prices.len() - 1;
        let before = initialized(board, configs, prices.drop_last());
        assert(configs[last].id < DEXCOUNT);
        assert forall|i: int| 0 <= i < prices.len() implies initialized(
            board,
            configs,
            prices,
        ).prices[(#[trigger] configs[i]).id as int] == prices[i] by {
            if i < last {
                assert(configs[i].id != configs[last].id);
                assert(before.prices[configs[i].id as int] == prices.drop_last()[i]);
            }
        }
        assert forall|slot: int|
            0 <= slot < DEXCOUNT && (forall|i: int|
                0 <= i < prices.len() ==> (#[trigger] configs[i]).id
                    != slot) implies #[trigger] initialized(board, configs, prices).prices[slot]
            == board.prices[slot] by {
            assert(configs[last].id != slot);
            assert(before.prices[slot] == board.prices[slot]);
        }
    }
}

/// Each of the pools that got its price has it at its id, the others keep what
/// was there, and no flag changes; where the start breaks off, the prices
/// before stay.
pub proof fn law_startup_fills_prices(board: Board, configs: Seq<PoolConfig>, prices: Seq<u64>)
    requires
        board.well_formed(),
        is_pool_table(configs),
        prices.len() <= DEXCOUNT,
    ensures
        initialized(board, configs, prices).well_formed(),
        initialized(board, configs, prices).flags == board.flags,
        forall|id: int|
            0 <= id < DEXCOUNT ==> #[trigger] initialized(board, configs, prices).prices[id] == (
            if id < prices.len() {
                prices[id]
            } else {
                board.prices[id]
            }),
{
    assert forall|i: int| 0 <= i < configs.len() implies (#[trigger] configs[i]).id == i by {
        assert(configures(configs[i], i));
    }
    law_prices_in_their_places(board, configs, prices);
    assert forall|id: int| 0 <= id < DEXCOUNT implies #[trigger] initialized(
        board,
        configs,
        prices,
    ).prices[id] == (if id < prices.len() {
        prices[id]
    } else {
        board.prices[id]
    }) by {
        assert(configs[id].id == id);
    }
}

} // verus!
