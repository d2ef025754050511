use price_feed::address::Address;
use price_feed::impact::{calculate_instant_price_impact, is_impact_computable};
use price_feed::mempool::{
    next_action, route, timestamp, ListenerAction, ListenerEvent, MempoolTxEvent,
    PendingTransaction,
};
use price_feed::monitor::{
    is_slow_update, pinned_core, toggle_flag, ChannelEvent, MonitorAction, PriceMonitor,
    PriceUpdateEvent, SharedWrite, EVENT_FLAG_DURATION_NANOS,
};
use price_feed::pools::{pool_configs, PoolConfig};
use price_feed::primitives::Hash256;
use price_feed::uint256::Uint256;

const ETH: u64 = 1_000_000_000_000_000_000;

fn config(id: usize) -> PoolConfig {
    pool_configs().unwrap()[id]
}

fn wei(value: u64) -> Uint256 {
    Uint256 { limbs: [value, 0, 0, 0] }
}

fn tx_of(pool_id: usize, value: Uint256) -> MempoolTxEvent {
    MempoolTxEvent {
        pool_id,
        tx_hash: Hash256 { bytes: [9; 32] },
        tx_value: value,
        target_address: config(pool_id).address,
        timestamp_nanos: 77,
    }
}

fn impact(price: u64, value: u64, pool_id: usize) -> u64 {
    let pool = config(pool_id);
    let event = tx_of(pool_id, wei(value));
    assert!(is_impact_computable(price, &event, &pool));
    calculate_instant_price_impact(price, &event, &pool)
}

#[test]
fn impact_of_whole_eth_by_type() {
    // 25, 30 and 15 ten-thousandths per ETH, twentyfold.
    assert_eq!(impact(1_000_000, ETH, 0), 50_000);
    assert_eq!(impact(1_000_000, ETH, 1), 60_000);
    assert_eq!(impact(1_000_000, ETH, 2), 30_000);
    assert_eq!(impact(1_000_000, ETH, 3), 30_000);
    assert_eq!(impact(1_000_000, 18 * ETH, 1), 1_080_000);
    assert_eq!(impact(33, ETH, 0), 1);
    assert_eq!(impact(19, ETH, 0), 0);
}

#[test]
fn only_whole_eth_count() {
    assert_eq!(impact(1_000_000, 2 * ETH - 1, 0), 50_000);
    assert_eq!(impact(1_000_000, ETH - 1, 0), 0);
}

#[test]
fn small_transactions_have_no_impact() {
    assert_eq!(impact(u64::MAX, 0, 0), 0);
    assert_eq!(impact(u64::MAX, 9_999_999_999_999_999, 1), 0);
    assert_eq!(impact(u64::MAX, 10_000_000_000_000_000, 2), 0);
}

#[test]
fn impact_grows_with_price_and_value() {
    for eth in 0..18 {
        assert!(impact(1_000_000, eth * ETH, 1) <= impact(1_000_000, (eth + 1) * ETH, 1));
        assert!(impact(1_000_000, eth * ETH, 1) <= impact(1_000_777, eth * ETH, 1));
    }
}

#[test]
fn impacts_beyond_64_bits_are_not_computable() {
    let pool = config(0);
    let largest = wei(u64::MAX);
    let beyond = Uint256 { limbs: [0, 1, 0, 0] };
    assert!(is_impact_computable(1, &tx_of(0, largest), &pool));
    assert!(!is_impact_computable(1, &tx_of(0, beyond), &pool));
    // One ETH amplifies to 500 ten-thousandths.
    let limit = u64::MAX / 500;
    assert!(is_impact_computable(limit, &tx_of(0, wei(ETH)), &pool));
    assert!(!is_impact_computable(limit + 1, &tx_of(0, wei(ETH)), &pool));
    let monitor = PriceMonitor::new(pool, limit + 1);
    assert!(!monitor.can_take(&ChannelEvent::Received(tx_of(0, wei(ETH)))));
    assert!(monitor.can_take(&ChannelEvent::Received(tx_of(0, wei(5)))));
    assert!(monitor.can_take(&ChannelEvent::Empty));
    assert!(monitor.can_take(&ChannelEvent::Disconnected));
}

#[test]
fn largest_computable_impact_adds_up() {
    let price = u64::MAX / 10_800;
    let mut monitor = PriceMonitor::new(config(1), price);
    let event = ChannelEvent::Received(tx_of(1, wei(u64::MAX)));
    assert!(monitor.can_take(&event));
    monitor.take(&event);
    assert_eq!(monitor.last_price, price + price * 10_800 / 10_000);
}

#[test]
fn pool_transaction_raises_the_price() {
    let tx = PendingTransaction { to: Some(config(3).address), value: wei(4 * ETH) };
    let found = ListenerEvent::Found {
        tx_hash: Hash256 { bytes: [5; 32] },
        tx,
        unix_nanos: 1,
    };
    let tx_event = match next_action(&found) {
        ListenerAction::Forward(tx_event) => tx_event,
        other => panic!("not forwarded but {:?}", other),
    };
    let mut monitor = PriceMonitor::new(config(tx_event.pool_id), 1_000_000);
    monitor.take(&ChannelEvent::Received(tx_event));
    assert_eq!(monitor.last_price, 1_120_000);
}

#[test]
fn monitor_publishes_rising_prices() {
    let mut monitor = PriceMonitor::new(config(1), 1_000_000);
    let first = monitor.take(&ChannelEvent::Received(tx_of(1, wei(ETH))));
    assert_eq!(
        first,
        MonitorAction::Publish(PriceUpdateEvent {
            pool_id: 1,
            old_price: 1_000_000,
            new_price: 1_060_000,
            timestamp_nanos: 77,
            tx_hash: Hash256 { bytes: [9; 32] },
        }),
    );
    assert_eq!(monitor.last_price, 1_060_000);
    let second = monitor.take(&ChannelEvent::Received(tx_of(1, wei(2 * ETH))));
    match second {
        MonitorAction::Publish(update) => {
            assert_eq!(update.old_price, 1_060_000);
            assert_eq!(update.new_price, 1_187_200);
        }
        other => panic!("no update but {:?}", other),
    }
    assert_eq!(monitor.last_price, 1_187_200);
}

#[test]
fn monitor_keeps_its_price_otherwise() {
    let mut monitor = PriceMonitor::new(config(0), 1_000_000);
    let tiny = ChannelEvent::Received(tx_of(0, wei(12)));
    assert_eq!(monitor.take(&tiny), MonitorAction::Continue);
    assert_eq!(monitor.take(&ChannelEvent::Empty), MonitorAction::Spin);
    assert_eq!(monitor.take(&ChannelEvent::Disconnected), MonitorAction::Stop);
    assert_eq!(monitor, PriceMonitor::new(config(0), 1_000_000));
}

#[test]
fn shared_memory_follows_the_monitor() {
    let mut prices = [10_000u64, 20_000, 30_000, 40_000];
    let mut flags = [0u64; 4];
    let mut monitor = PriceMonitor::new(config(2), prices[2]);
    let mut updates: u64 = 0;
    for value in [ETH, 3, 5 * ETH, 0, 17 * ETH] {
        let event = ChannelEvent::Received(tx_of(2, wei(value)));
        assert!(monitor.can_take(&event));
        if let MonitorAction::Publish(update) = monitor.take(&event) {
            assert!(update.new_price > prices[update.pool_id]);
            prices[update.pool_id] = update.new_price;
            flags[update.pool_id] = toggle_flag(flags[update.pool_id]);
            updates += 1;
        }
        assert_eq!(prices[2], monitor.last_price);
        assert_eq!(flags[2], updates % 2);
    }
    assert_eq!(updates, 3);
    assert_eq!((prices[0], prices[1], prices[3]), (10_000, 20_000, 40_000));
    assert_eq!(flags, [0, 0, 1, 0]);
}

#[test]
fn updates_of_different_pools_commute() {
    let run = |order: [usize; 2]| {
        let mut prices = [10_000u64, 20_000, 30_000, 40_000];
        let mut flags = [0u64; 4];
        for id in order {
            let mut monitor = PriceMonitor::new(config(id), prices[id]);
            let action = monitor.take(&ChannelEvent::Received(tx_of(id, wei(ETH))));
            if let MonitorAction::Publish(update) = action {
                prices[update.pool_id] = update.new_price;
                flags[update.pool_id] = toggle_flag(flags[update.pool_id]);
            }
        }
        (prices, flags)
    };
    assert_eq!(run([0, 3]), run([3, 0]));
    assert_eq!(run([0, 3]), ([10_500, 20_000, 30_000, 41_200], [1, 0, 0, 1]));
}

#[test]
fn flags_toggle() {
    assert_eq!(toggle_flag(0), 1);
    assert_eq!(toggle_flag(1), 0);
    assert_eq!(toggle_flag(5), 0);
    assert_eq!(EVENT_FLAG_DURATION_NANOS, 100_000);
}

#[test]
fn slow_updates() {
    assert!(!is_slow_update(1000));
    assert!(is_slow_update(1001));
}

#[test]
fn threads_are_pinned_by_pool_id() {
    assert_eq!(pinned_core(&[4, 6], 0), Some(4));
    assert_eq!(pinned_core(&[4, 6], 1), Some(6));
    assert_eq!(pinned_core(&[4, 6], 2), None);
    assert_eq!(pinned_core(&[], 0), None);
}

#[test]
fn transactions_are_routed_to_their_pool() {
    let tx_hash = Hash256 { bytes: [3; 32] };
    for id in 0..4 {
        let tx = PendingTransaction { to: Some(config(id).address), value: wei(42) };
        let event = route(tx_hash, &tx, 1_700_000_000_123_456_789).unwrap();
        assert_eq!(
            event,
            MempoolTxEvent {
                pool_id: id,
                tx_hash,
                tx_value: wei(42),
                target_address: config(id).address,
                timestamp_nanos: 1_700_000_000_123_456_789,
            },
        );
        assert_eq!(
            next_action(&ListenerEvent::Found {
                tx_hash,
                tx,
                unix_nanos: 1_700_000_000_123_456_789,
            }),
            ListenerAction::Forward(event),
        );
    }
}

#[test]
fn other_transactions_are_passed_over() {
    let tx_hash = Hash256 { bytes: [3; 32] };
    let await_next = ListenerAction::Await { report_slow: false };
    for to in [None, Some(Address { bytes: [0; 20] })] {
        let tx = PendingTransaction { to, value: wei(ETH) };
        assert_eq!(route(tx_hash, &tx, 0), None);
        assert_eq!(
            next_action(&ListenerEvent::Found { tx_hash, tx, unix_nanos: 0 }),
            await_next,
        );
    }
    assert_eq!(next_action(&ListenerEvent::NotFound), await_next);
}

#[test]
fn timestamps_keep_64_bits() {
    assert_eq!(timestamp(u64::MAX as u128), u64::MAX);
    assert_eq!(timestamp((1 << 64) + 5), 5);
}

#[test]
fn listener_goes_from_hash_to_transaction() {
    let tx_hash = Hash256 { bytes: [8; 32] };
    let await_next = ListenerAction::Await { report_slow: false };
    assert_eq!(next_action(&ListenerEvent::Subscribed), await_next);
    assert_eq!(next_action(&ListenerEvent::Announced(tx_hash)), ListenerAction::Fetch(tx_hash));
    assert_eq!(
        next_action(&ListenerEvent::SubscriptionFailed),
        ListenerAction::Stop { subscription_failed: true },
    );
    assert_eq!(
        next_action(&ListenerEvent::StreamEnded),
        ListenerAction::Stop { subscription_failed: false },
    );
}

#[test]
fn listener_reports_lost_and_slow_transactions() {
    assert_eq!(
        next_action(&ListenerEvent::Sent { delivered: true }),
        ListenerAction::Measure { report_undelivered: false },
    );
    assert_eq!(
        next_action(&ListenerEvent::Sent { delivered: false }),
        ListenerAction::Measure { report_undelivered: true },
    );
    assert_eq!(
        next_action(&ListenerEvent::Timed { elapsed_micros: 100 }),
        ListenerAction::Await { report_slow: false },
    );
    assert_eq!(
        next_action(&ListenerEvent::Timed { elapsed_micros: 101 }),
        ListenerAction::Await { report_slow: true },
    );
}

#[test]
fn price_is_written_before_the_flag() {
    let mut monitor = PriceMonitor::new(config(2), 10_000);
    let mut price = 10_000;
    let mut flag = 0;
    let mut toggles = 0;
    let mut published = vec![];
    for value in [ETH, 7, 2 * ETH, 3 * ETH] {
        let action = monitor.take(&ChannelEvent::Received(tx_of(2, wei(value))));
        if let MonitorAction::Publish(update) = action {
            published.push(update.new_price);
            assert_eq!(
                action.writes(),
                [
                    SharedWrite::StorePrice { pool_id: 2, price: update.new_price },
                    SharedWrite::ToggleFlag { pool_id: 2 },
                ],
            );
        }
        for write in action.writes() {
            match write {
                SharedWrite::StorePrice { price: new_price, .. } => price = new_price,
                SharedWrite::ToggleFlag { .. } => {
                    flag = toggle_flag(flag);
                    toggles += 1;
                }
            }
            if toggles > 0 {
                assert!(published.iter().position(|p| *p == price).unwrap() + 1 >= toggles);
            }
        }
    }
    assert_eq!((toggles, flag), (3, 1));
    assert!(MonitorAction::Continue.writes().is_empty());
    assert!(MonitorAction::Spin.writes().is_empty());
    assert!(MonitorAction::Stop.writes().is_empty());
}
