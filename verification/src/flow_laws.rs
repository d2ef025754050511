//! What the listener, the impacts and the monitors are for, in terms of what
//! goes in and what comes out.

use crate::impact::{
    amplified_impact, calculate_instant_price_impact, is_impact_computable,
    law_impact_never_saturates,
};
use crate::mempool::{
    next_action, route, timestamp, ListenerAction, ListenerEvent, MempoolTxEvent,
    PendingTransaction,
};
use crate::monitor::{
    is_slow_update, pinned_core, toggle_flag, ChannelEvent, MonitorAction, PriceMonitor,
    SharedWrite, EVENT_FLAG_DURATION_NANOS,
};
use crate::pool_laws::{known_address, lemma_known_addresses, lemma_known_addresses_differ};
use crate::pools::{pool_address, pool_at, DexType, PoolConfig};
use crate::primitives::Hash256;
use vstd::prelude::*;

verus! {

/// The transaction that is asked for is the one announced: its hash has the same
/// bytes at the same places.
pub proof fn law_announced_is_fetched(tx_hash: Hash256, action: ListenerAction)
    requires
        call_ensures(next_action, (&ListenerEvent::Announced(tx_hash),), action),
    ensures
        call_requires(next_action, (&ListenerEvent::Announced(tx_hash),)),
        action is Fetch,
        forall|i: int|
            0 <= i < 32 ==> #[trigger] action->Fetch_0.bytes@[i] == tx_hash.bytes@[i],
{
}

/// The listener waits for hashes once it is subscribed, passes over what is not
/// found, and ends where the stream ends or there is no subscription.
pub proof fn law_listener_waits_and_ends(
    subscribed: ListenerAction,
    not_found: ListenerAction,
    ended: ListenerAction,
    failed: ListenerAction,
)
    requires
        call_ensures(next_action, (&ListenerEvent::Subscribed,), subscribed),
        call_ensures(next_action, (&ListenerEvent::NotFound,), not_found),
        call_ensures(next_action, (&ListenerEvent::StreamEnded,), ended),
        call_ensures(next_action, (&ListenerEvent::SubscriptionFailed,), failed),
    ensures
        subscribed is Await && !subscribed->report_slow,
        not_found is Await && !not_found->report_slow,
        ended is Stop && !ended->subscription_failed,
        failed is Stop && failed->subscription_failed,
{
}

/// The timestamp of an event keeps the low 64 bits of the nanoseconds: what is
/// dropped is a multiple of 2^64.
pub proof fn law_timestamp(unix_nanos: u128, r: u64, dropped: nat)
    requires
        dropped * 0x1_0000000000000000nat <= unix_nanos,
        unix_nanos < (dropped + 1) * 0x1_0000000000000000nat,
        call_ensures(timestamp, (unix_nanos,), r),
    ensures
        call_requires(timestamp, (unix_nanos,)),
        dropped * 0x1_0000000000000000nat + r == unix_nanos,
{
}

/// A transaction to a known address becomes an event for that address's pool,
/// with the transaction's hash, value and receiver and the time in 64 bits.
pub proof fn law_pool_transaction_routed(
    id: int,
    tx_hash: Hash256,
    tx: PendingTransaction,
    unix_nanos: u128,
    dropped: nat,
    r: Option<MempoolTxEvent>,
)
    requires
        0 <= id < 4,
        tx.to is Some,
        tx.to->0.bytes@ == known_address(id),
        dropped * 0x1_0000000000000000nat <= unix_nanos,
        unix_nanos < (dropped + 1) * 0x1_0000000000000000nat,
        call_ensures(route, (tx_hash, &tx, unix_nanos), r),
    ensures
        call_requires(route, (tx_hash, &tx, unix_nanos)),
        r is Some,
        r->0.pool_id == id,
        r->0.tx_hash.bytes@ == tx_hash.bytes@,
        r->0.tx_value.limbs@ == tx.value.limbs@,
        r->0.target_address.bytes@ == known_address(id),
        dropped * 0x1_0000000000000000nat + r->0.timestamp_nanos == unix_nanos,
{
    lemma_pool_at(tx.to->0@, id);
}

/// A transaction that creates a contract, or whose receiver is at none of the
/// known addresses, becomes no event.
pub proof fn law_other_transaction_not_routed(
    tx_hash: Hash256,
    tx: PendingTransaction,
    unix_nanos: u128,
    r: Option<MempoolTxEvent>,
)
    requires
        tx.to is Some ==> forall|id: int|
            0 <= id < 4 ==> tx.to->0.bytes@ != #[trigger] known_address(id),
        call_ensures(route, (tx_hash, &tx, unix_nanos), r),
    ensures
        call_requires(route, (tx_hash, &tx, unix_nanos)),
        r is None,
{
    lemma_pool_addresses();
    if tx.to is Some {
        assert(tx.to->0@ != known_address(0));
        assert(tx.to->0@ != known_address(1));
        assert(tx.to->0@ != known_address(2));
        assert(tx.to->0@ != known_address(3));
    }
}

/// The pools are at the known addresses.
proof fn lemma_pool_addresses()
    ensures
        pool_address(0) == known_address(0),
        pool_address(1) == known_address(1),
        pool_address(2) == known_address(2),
        pool_address(3) == known_address(3),
{
    lemma_known_addresses();
}

/// A known address leads to the pool with its id.
proof fn lemma_pool_at(address: Seq<u8>, id: int)
    requires
        0 <= id < 4,
        address == known_address(id),
    ensures
        pool_at(address) == Some(id),
{
    lemma_pool_addresses();
    assert forall|other: int| 0 <= other < 4 && other != id implies #[trigger] known_address(other)
        != known_address(id) by {
        lemma_known_addresses_differ(id, other);
    }
}

/// A transaction that is announced, and found under the hash that was asked
/// for, is forwarded to the pool at its receiver's address, under the hash that
/// was announced.
pub proof fn law_announced_transaction_forwarded(
    announced: Hash256,
    fetch: ListenerAction,
    tx: PendingTransaction,
    unix_nanos: u128,
    dropped: nat,
    id: int,
    forward: ListenerAction,
)
    requires
        0 <= id < 4,
        tx.to is Some,
        tx.to->0.bytes@ == known_address(id),
        dropped * 0x1_0000000000000000nat <= unix_nanos,
        unix_nanos < (dropped + 1) * 0x1_0000000000000000nat,
        call_ensures(next_action, (&ListenerEvent::Announced(announced),), fetch),
        call_ensures(
            next_action,
            (&ListenerEvent::Found { tx_hash: fetch->Fetch_0, tx, unix_nanos },),
            forward,
        ),
    ensures
        call_requires(
            next_action,
            (&ListenerEvent::Found { tx_hash: fetch->Fetch_0, tx, unix_nanos },),
        ),
        forward is Forward,
        forward->Forward_0.pool_id == id,
        forall|i: int|
            0 <= i < 32 ==> #[trigger] forward->Forward_0.tx_hash.bytes@[i] == announced.bytes@[i],
        forward->Forward_0.tx_value.limbs@ == tx.value.limbs@,
        forward->Forward_0.target_address.bytes@ == known_address(id),
        dropped * 0x1_0000000000000000nat + forward->Forward_0.timestamp_nanos == unix_nanos,
{
    lemma_pool_at(tx.to->0@, id);
}

/// A transaction that is found, but whose receiver is at none of the known
/// addresses, is passed over.
pub proof fn law_found_transaction_passed_over(
    tx_hash: Hash256,
    tx: PendingTransaction,
    unix_nanos: u128,
    action: ListenerAction,
)
    requires
        tx.to is Some ==> forall|id: int|
            0 <= id < 4 ==> tx.to->0.bytes@ != #[trigger] known_address(id),
        call_ensures(next_action, (&ListenerEvent::Found { tx_hash, tx, unix_nanos },), action),
    ensures
        action is Await,
        !action->report_slow,
{
    lemma_pool_addresses();
    if tx.to is Some {
        assert(tx.to->0@ != known_address(0));
        assert(tx.to->0@ != known_address(1));
        assert(tx.to->0@ != known_address(2));
        assert(tx.to->0@ != known_address(3));
    }
}

/// After a transaction was sent the time is taken, and it is reported where it
/// was not delivered; then the next hash is awaited, and the transaction is
/// reported as slow where more than 100 microseconds went by.
pub proof fn law_sent_transaction_reported(
    delivered: bool,
    elapsed_micros: u128,
    measure: ListenerAction,
    wait: ListenerAction,
)
    requires
        call_ensures(next_action, (&ListenerEvent::Sent { delivered },), measure),
        call_ensures(next_action, (&ListenerEvent::Timed { elapsed_micros },), wait),
    ensures
        measure is Measure,
        measure->report_undelivered != delivered,
        wait is Await,
        wait->report_slow <==> elapsed_micros > 100,
{
}

/// A transaction of `n` whole ETH and less than one more moves a price by
/// `price * n * rate * 20 / 10000`, rounded down, with a rate of 25 for a
/// Uniswap V3 pool, 30 for a Uniswap V2 pair and 15 for a router.
pub proof fn law_impact(
    price: u64,
    event: &MempoolTxEvent,
    config: &PoolConfig,
    n: nat,
    rate: nat,
    impact: u64,
)
    requires
        n * 1_000_000_000_000_000_000 <= event.tx_value@,
        event.tx_value@ < (n + 1) * 1_000_000_000_000_000_000,
        config.dex_type is UniswapV3Pool ==> rate == 25,
        config.dex_type is UniswapV2Pair ==> rate == 30,
        config.dex_type is Router || config.dex_type is ZeroXRouter ==> rate == 15,
        event.tx_value@ <= 18_446_744_073_709_551_615,
        price * (n * rate * 20) <= 18_446_744_073_709_551_615,
        call_ensures(calculate_instant_price_impact, (price, event, config), impact),
    ensures
        call_requires(calculate_instant_price_impact, (price, event, config)),
        impact * 10_000 <= price * (n * rate * 20),
        price * (n * rate * 20) < (impact + 1) * 10_000,
        event.tx_value@ < 10_000_000_000_000_000 ==> impact == 0,
{
    lemma_amplified(event.tx_value@, config.dex_type, n, rate);
    if n == 0 {
        assert(price * (n * rate * 20) == 0) by (nonlinear_arith)
            requires
                n == 0,
        ;
    }
}

/// The amplified impact of `n` whole ETH and less than one more.
proof fn lemma_amplified(value: nat, dex_type: DexType, n: nat, rate: nat)
    requires
        n * 1_000_000_000_000_000_000 <= value,
        value < (n + 1) * 1_000_000_000_000_000_000,
        dex_type is UniswapV3Pool ==> rate == 25,
        dex_type is UniswapV2Pair ==> rate == 30,
        dex_type is Router || dex_type is ZeroXRouter ==> rate == 15,
    ensures
        amplified_impact(value, dex_type) == n * rate * 20,
{
    assert(value / 1_000_000_000_000_000_000 == n);
}

/// The test for impacts refuses them just where the value, or the price times
/// the amplified impact, is beyond 64 bits.
pub proof fn law_impact_test(
    price: u64,
    event: &MempoolTxEvent,
    config: &PoolConfig,
    n: nat,
    rate: nat,
    r: bool,
)
    requires
        n * 1_000_000_000_000_000_000 <= event.tx_value@,
        event.tx_value@ < (n + 1) * 1_000_000_000_000_000_000,
        config.dex_type is UniswapV3Pool ==> rate == 25,
        config.dex_type is UniswapV2Pair ==> rate == 30,
        config.dex_type is Router || config.dex_type is ZeroXRouter ==> rate == 15,
        call_ensures(is_impact_computable, (price, event, config), r),
    ensures
        call_requires(is_impact_computable, (price, event, config)),
        r <==> event.tx_value@ <= 18_446_744_073_709_551_615 && price * (n * rate * 20)
            <= 18_446_744_073_709_551_615,
{
    lemma_amplified(event.tx_value@, config.dex_type, n, rate);
}

/// A monitor begins with the pool and the price that it is given.
pub proof fn law_monitor_begins(config: PoolConfig, price: u64, monitor: PriceMonitor)
    requires
        call_ensures(PriceMonitor::new, (config, price), monitor),
    ensures
        call_requires(PriceMonitor::new, (config, price)),
        monitor.config == config,
        monitor.last_price == price,
{
}

/// A monitor can take a transaction just where its impact on the last price can
/// be computed, and anything else at any time.
pub proof fn law_monitor_test(
    monitor: PriceMonitor,
    event: ChannelEvent,
    r: bool,
    computable: bool,
)
    requires
        call_ensures(PriceMonitor::can_take, (&monitor, &event), r),
        event is Received ==> call_ensures(
            is_impact_computable,
            (monitor.last_price, &event->Received_0, &monitor.config),
            computable,
        ),
    ensures
        call_requires(PriceMonitor::can_take, (&monitor, &event)),
        event is Received ==> r == computable,
        !(event is Received) ==> r,
{
}

/// A monitor adds the impact of a transaction, where there is one, to its price,
/// and publishes the old and the new price with the pool's id and the
/// transaction's hash and time; where there is none, it goes on as it is.
pub proof fn law_monitor_takes_transaction(
    monitor: &mut PriceMonitor,
    tx_event: MempoolTxEvent,
    impact: u64,
    action: MonitorAction,
)
    requires
        call_ensures(
            is_impact_computable,
            (monitor.last_price, &tx_event, &monitor.config),
            true,
        ),
        call_ensures(
            calculate_instant_price_impact,
            (monitor.last_price, &tx_event, &monitor.config),
            impact,
        ),
        call_ensures(PriceMonitor::take, (monitor, &ChannelEvent::Received(tx_event)), action),
    ensures
        call_requires(PriceMonitor::take, (monitor, &ChannelEvent::Received(tx_event))),
        final(monitor).config == old(monitor).config,
        final(monitor).last_price == old(monitor).last_price + impact,
        impact == 0 ==> action is Continue,
        impact > 0 ==> {
            &&& action is Publish
            &&& action->Publish_0.pool_id == old(monitor).config.id
            &&& action->Publish_0.old_price == old(monitor).last_price
            &&& action->Publish_0.new_price == old(monitor).last_price + impact
            &&& action->Publish_0.timestamp_nanos == tx_event.timestamp_nanos
            &&& action->Publish_0.tx_hash.bytes@ == tx_event.tx_hash.bytes@
        },
{
    law_impact_never_saturates(
        monitor.last_price as nat,
        tx_event.tx_value@,
        monitor.config.dex_type,
    );
}

/// A monitor pauses while its channel is empty, ends when it is closed, and
/// keeps its price in both cases.
pub proof fn law_monitor_without_transaction(
    monitor: &mut PriceMonitor,
    event: ChannelEvent,
    action: MonitorAction,
)
    requires
        !(event is Received),
        call_ensures(PriceMonitor::take, (monitor, &event), action),
    ensures
        call_requires(PriceMonitor::take, (monitor, &event)),
        event is Empty ==> action is Spin,
        event is Disconnected ==> action is Stop,
        *final(monitor) == *old(monitor),
{
}

/// An update is written to the shared memory as its new price and then its
/// pool's flag; no other action writes anything.
pub proof fn law_writes(action: MonitorAction, writes: Vec<SharedWrite>)
    requires
        call_ensures(MonitorAction::writes, (&action,), writes),
    ensures
        call_requires(MonitorAction::writes, (&action,)),
        !(action is Publish) ==> writes@.len() == 0,
        action is Publish ==> {
            &&& writes@.len() == 2
            &&& writes@[0] is StorePrice
            &&& writes@[0]->StorePrice_pool_id == action->Publish_0.pool_id
            &&& writes@[0]->price == action->Publish_0.new_price
            &&& writes@[1] is ToggleFlag
            &&& writes@[1]->ToggleFlag_pool_id == action->Publish_0.pool_id
        },
{
}

/// A flag turns to 1 from 0 and to 0 from anything else, so that it changes
/// every time.
pub proof fn law_flag(flag: u64, r: u64)
    requires
        call_ensures(toggle_flag, (flag,), r),
    ensures
        call_requires(toggle_flag, (flag,)),
        r != flag,
        r <= 1,
        flag > 1 ==> r == 0,
{
}

/// An update is slow beyond 1000 nanoseconds, and a flag is held for 100
/// microseconds.
pub proof fn law_update_times(elapsed_nanos: u128, r: bool)
    requires
        call_ensures(is_slow_update, (elapsed_nanos,), r),
    ensures
        call_requires(is_slow_update, (elapsed_nanos,)),
        r <==> elapsed_nanos >= 1001,
        EVENT_FLAG_DURATION_NANOS == 100 * 1000,
{
}

/// A pool's thread is pinned to the core at the place of the pool's id, where
/// there are so many cores.
pub proof fn law_pinned_core(cores: &[usize], pool_id: usize, r: Option<usize>)
    requires
        call_ensures(pinned_core, (cores, pool_id), r),
    ensures
        call_requires(pinned_core, (cores, pool_id)),
        r is Some <==> cores@.len() > pool_id,
        r is Some ==> r->0 == cores@[pool_id as int],
{
}

} // verus!
