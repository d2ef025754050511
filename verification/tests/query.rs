use price_feed::address::Address;
use price_feed::feed::Feed;
use price_feed::mempool::{route, PendingTransaction};
use price_feed::pools::{pool_configs, DexType, PoolConfig};
use price_feed::pricing::DEFAULT_PRICE;
use price_feed::primitives::{Hash256, LogEntry};
use price_feed::query::{ChainReply, ChainRequest, PriceQuery, QueryStep};
use price_feed::startup::{PriceStore, Startup};
use price_feed::uint256::Uint256;

fn word(value: u128) -> Vec<u8> {
    let mut bytes = vec![0u8; 16];
    bytes.extend_from_slice(&value.to_be_bytes());
    bytes
}

fn config(id: usize) -> PoolConfig {
    pool_configs().unwrap()[id]
}

#[test]
fn v3_pool_is_priced_by_slot0() {
    let pool = config(0);
    let (query, request) = PriceQuery::begin(&pool).unwrap();
    assert_eq!(query, PriceQuery::Slot0);
    assert_eq!(
        request,
        ChainRequest::Call { to: pool.address, data: vec![0x38, 0x50, 0xc7, 0xbd] },
    );
    let reply = ChainReply::CallResult(word(7 << 96));
    assert!(query.can_use(&reply));
    assert_eq!(query.advance(&reply), QueryStep::Price(49_000_000_000_000));
}

#[test]
fn v2_pair_is_priced_by_its_reserves() {
    let pair = config(1);
    let (query, request) = PriceQuery::begin(&pair).unwrap();
    assert_eq!(query, PriceQuery::Reserves);
    assert_eq!(
        request,
        ChainRequest::Call { to: pair.address, data: vec![0x09, 0x02, 0xf1, 0xac] },
    );
    let mut result = word(4);
    result.extend(word(10));
    let reply = ChainReply::CallResult(result);
    assert!(query.can_use(&reply));
    assert_eq!(query.advance(&reply), QueryStep::Price(2_500_000_000_000_000_000));
}

#[test]
fn routers_are_priced_by_their_last_swap() {
    for id in [2, 3] {
        let router = config(id);
        let (query, request) = PriceQuery::begin(&router).unwrap();
        assert_eq!(request, ChainRequest::BlockNumber);
        let (query, request) = match query.advance(&ChainReply::BlockNumber(18_000_000)) {
            QueryStep::Ask(query, request) => (query, request),
            QueryStep::Price(price) => panic!("priced at {} without its logs", price),
        };
        assert_eq!(query, PriceQuery::Swaps);
        assert_eq!(
            request,
            ChainRequest::Logs {
                address: router.address,
                from_block: 17_999_900,
                to_block: 18_000_000,
            },
        );
        let mut data = vec![0u8; 128];
        data.extend(word(2 << 96));
        let log = LogEntry { topics: vec![Hash256 { bytes: [1; 32] }], data };
        let reply = ChainReply::Logs(vec![log]);
        assert!(query.can_use(&reply));
        assert_eq!(query.advance(&reply), QueryStep::Price(4_000_000_000_000));
        assert_eq!(
            query.advance(&ChainReply::Logs(vec![])),
            QueryStep::Price(DEFAULT_PRICE),
        );
    }
}

#[test]
fn unusable_replies() {
    let (slot0, _) = PriceQuery::begin(&config(0)).unwrap();
    let (reserves, _) = PriceQuery::begin(&config(1)).unwrap();
    let (latest, _) = PriceQuery::begin(&config(2)).unwrap();
    assert!(!slot0.can_use(&ChainReply::CallResult(vec![0; 31])));
    assert!(!slot0.can_use(&ChainReply::BlockNumber(5000)));
    assert!(!reserves.can_use(&ChainReply::CallResult(vec![0; 63])));
    assert!(!reserves.can_use(&ChainReply::Logs(vec![])));
    assert!(!latest.can_use(&ChainReply::BlockNumber(99)));
    assert!(latest.can_use(&ChainReply::BlockNumber(100)));
    assert!(!PriceQuery::Swaps.can_use(&ChainReply::CallResult(vec![0; 200])));
}

#[test]
fn startup_stores_every_price_in_its_place() {
    let mut startup = Startup::new(pool_configs().unwrap());
    let mut prices = [0u64; 4];
    let mut fetched = 100;
    while let Some(pool) = startup.next_pool() {
        let store = startup.take_price(fetched);
        assert_eq!(store, PriceStore { pool_id: pool.id, price: fetched });
        prices[store.pool_id] = store.price;
        fetched += 1;
    }
    assert_eq!(prices, [100, 101, 102, 103]);
    assert_eq!(startup.priced, 4);
}

#[test]
fn startup_that_breaks_off_keeps_the_prices_before() {
    let mut startup = Startup::new(pool_configs().unwrap());
    let mut prices = [1u64, 2, 3, 4];
    for fetched in [70, 80] {
        let store = startup.take_price(fetched);
        prices[store.pool_id] = store.price;
    }
    assert_eq!(prices, [70, 80, 3, 4]);
    assert_eq!(startup.next_pool().map(|pool| pool.id), Some(2));
}

#[test]
fn startup_of_other_pools_stores_by_id() {
    let pool = |id: usize| PoolConfig {
        id,
        address: Address { bytes: [id as u8; 20] },
        dex_type: DexType::Router,
        name: "pool",
    };
    let mut startup = Startup::new(vec![pool(2), pool(0)]);
    let mut prices = [1u64, 2, 3, 4];
    for fetched in [70, 80] {
        let store = startup.take_price(fetched);
        prices[store.pool_id] = store.price;
    }
    assert_eq!(prices, [80, 2, 70, 4]);
    assert_eq!(startup.next_pool(), None);
}

#[test]
fn new_feeds_agree() {
    let one = Feed::new().unwrap();
    let other = Feed::new().unwrap();
    assert_eq!(one, other);
    assert_eq!(one.pool_configs, pool_configs().unwrap());
    assert!(one.pool_threads.is_empty());
    assert!(one.tx_senders.is_empty());
    for i in 0..4 {
        for j in 0..i {
            assert_ne!(one.pool_configs[i].address, one.pool_configs[j].address);
        }
    }
}

#[test]
fn monitors_start_in_the_order_of_the_pools() {
    let mut feed = Feed::new().unwrap();
    let started = feed.start_monitoring();
    assert_eq!(started, feed.pool_configs);
    assert_eq!(feed.tx_senders, [0, 1, 2, 3]);
    assert_eq!(feed.pool_threads, [0, 1, 2, 3]);
    feed.start_monitoring();
    assert_eq!(feed.tx_senders, [0, 1, 2, 3]);
    assert_eq!(feed.pool_threads, [0, 1, 2, 3, 0, 1, 2, 3]);
}

#[test]
fn forwarded_transactions_find_their_channel() {
    let mut feed = Feed::new().unwrap();
    feed.start_monitoring();
    for pool in &feed.pool_configs {
        let tx = PendingTransaction { to: Some(pool.address), value: Uint256::zero() };
        let event = route(Hash256 { bytes: [0; 32] }, &tx, 0).unwrap();
        assert_eq!(feed.tx_senders[event.pool_id], pool.id);
    }
}
