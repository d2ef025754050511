//! The shared memory that the daemons read: a price and an event flag per pool.

use crate::impact::{law_impact_never_saturates, price_impact};
use crate::mempool::{
    law_pool_transaction_forwarded, responds, ListenerAction, ListenerEvent, PendingTransaction,
};
use crate::monitor::{
    law_notification_changes_flag, law_published_price_rises, toggled, ChannelEvent, MonitorAction,
    PriceMonitor,
};
use crate::pools::{configures, pool_address, pool_type, DEXCOUNT};
use crate::primitives::Hash256;
use vstd::prelude::*;

verus! {

/// The contents of the shared memory, by pool id.
pub struct Board {
    pub prices: Seq<u64>,
    pub flags: Seq<u64>,
}

impl Board {
    /// Every pool has its price and its flag.
    pub open spec fn well_formed(self) -> bool {
        &&& self.prices.len() == DEXCOUNT
        &&& self.flags.len() == DEXCOUNT
    }

    /// A pool's price is stored.
    pub open spec fn stored(self, pool_id: int, price: u64) -> Board {
        Board { prices: self.prices.update(pool_id, price), flags: self.flags }
    }

    /// The daemons of a pool are notified.
    pub open spec fn notified(self, pool_id: int) -> Board {
        Board {
            prices: self.prices,
            flags: self.flags.update(pool_id, toggled(self.flags[pool_id])),
        }
    }

    /// A monitor's action is carried out.
    pub open spec fn after(self, action: MonitorAction) -> Board {
        match action {
            MonitorAction::Publish(update) => self.stored(
                update.pool_id as int,
                update.new_price,
            ).notified(update.pool_id as int),
            _ => self,
        }
    }
}

/// A monitor after a row of events.
pub open spec fn monitor_after(monitor: PriceMonitor, events: Seq<ChannelEvent>) -> PriceMonitor
    decreases events.len(),
{
    if events.len() == 0 {
        monitor
    } else {
        monitor_after(monitor, events.drop_last()).next(events.last())
    }
}

/// The shared memory after a monitor has taken a row of events.
pub open spec fn board_after(
    board: Board,
    monitor: PriceMonitor,
    events: Seq<ChannelEvent>,
) -> Board
    decreases events.len(),
{
    if events.len() == 0 {
        board
    } else {
        board_after(board, monitor, events.drop_last()).after(
            monitor_after(monitor, events.drop_last()).action(events.last()),
        )
    }
}

/// How many updates a monitor publishes in a row of events.
pub open spec fn updates(monitor: PriceMonitor, events: Seq<ChannelEvent>) -> nat
    decreases events.len(),
{
    if events.len() == 0 {
        0
    } else {
        updates(monitor, events.drop_last()) + if monitor_after(
            monitor,
            events.drop_last(),
        ).action(events.last()) is Publish {
            1nat
        } else {
            0nat
        }
    }
}

/// A monitor can take every event of a row, one after the other.
pub open spec fn takes_all(monitor: PriceMonitor, events: Seq<ChannelEvent>) -> bool
    decreases events.len(),
{
    events.len() == 0 || {
        &&& takes_all(monitor, events.drop_last())
        &&& monitor_after(monitor, events.drop_last()).accepts(events.last())
    }
}

/// A monitor stays with its pool, and its price never falls.
pub proof fn law_price_never_falls(monitor: PriceMonitor, events: Seq<ChannelEvent>)
    requires
        takes_all(monitor, events),
    ensures
        monitor_after(monitor, events).config == monitor.config,
        monitor_after(monitor, events).last_price >= monitor.last_price,
    decreases events.len(),
{
    if events.len() > 0 {
        law_price_never_falls(monitor, events.drop_last());
        let before = monitor_after(monitor, events.drop_last());
        if before.action(events.last()) is Publish {
            law_published_price_rises(before, events.last());
        }
    }
}

/// The shared price of a pool is the one that its monitor holds, after any row
/// of events as before it.
pub proof fn law_shared_price_is_current(
    board: Board,
    monitor: PriceMonitor,
    events: Seq<ChannelEvent>,
)
    requires
        board.well_formed(),
        monitor.config.id < DEXCOUNT,
        board.prices[monitor.config.id as int] == monitor.last_price,
        takes_all(monitor, events),
    ensures
        board_after(board, monitor, events).well_formed(),
        board_after(board, monitor, events).prices[monitor.config.id as int] == monitor_after(
            monitor,
            events,
        ).last_price,
    decreases events.len(),
{
    if events.len() > 0 {
        law_shared_price_is_current(board, monitor, events.drop_last());
        law_price_never_falls(monitor, events.drop_last());
    }
}

/// A monitor leaves the prices and flags of the other pools alone.
pub proof fn law_other_pools_untouched(
    board: Board,
    monitor: PriceMonitor,
    events: Seq<ChannelEvent>,
    other: int,
)
    requires
        board.well_formed(),
        monitor.config.id < DEXCOUNT,
        0 <= other < DEXCOUNT,
        other != monitor.config.id,
        takes_all(monitor, events),
    ensures
        board_after(board, monitor, events).well_formed(),
        board_after(board, monitor, events).prices[other] == board.prices[other],
        board_after(board, monitor, events).flags[other] == board.flags[other],
    decreases events.len(),
{
    if events.len() > 0 {
        law_other_pools_untouched(board, monitor, events.drop_last(), other);
        law_price_never_falls(monitor, events.drop_last());
    }
}

/// A pool's flag tells the parity of the updates that were published.
pub proof fn law_flag_counts_updates(
    board: Board,
    monitor: PriceMonitor,
    events: Seq<ChannelEvent>,
)
    requires
        board.well_formed(),
        monitor.config.id < DEXCOUNT,
        board.flags[monitor.config.id as int] <= 1,
        takes_all(monitor, events),
    ensures
        board_after(board, monitor, events).well_formed(),
        board_after(board, monitor, events).flags[monitor.config.id as int] == (
        board.flags[monitor.config.id as int] + updates(monitor, events)) % 2,
    decreases events.len(),
{
    if events.len() > 0 {
        law_flag_counts_updates(board, monitor, events.drop_last());
        law_price_never_falls(monitor, events.drop_last());
    }
}

/// An update changes both the price and the flag that the daemons read.
pub proof fn law_update_is_visible(board: Board, monitor: PriceMonitor, event: ChannelEvent)
    requires
        board.well_formed(),
        monitor.config.id < DEXCOUNT,
        board.prices[monitor.config.id as int] == monitor.last_price,
        monitor.accepts(event),
        monitor.action(event) is Publish,
    ensures
        ({
            let id = monitor.config.id as int;
            let next = board.after(monitor.action(event));
            &&& next.prices[id] > board.prices[id]
            &&& next.flags[id] != board.flags[id]
        }),
{
    law_published_price_rises(monitor, event);
    law_notification_changes_flag(board.flags[monitor.config.id as int]);
}

/// A pending transaction to a pool reaches that pool's monitor and raises the
/// shared price by its impact.
pub proof fn law_pool_transaction_raises_price(
    board: Board,
    monitor: PriceMonitor,
    id: int,
    tx_hash: Hash256,
    tx: PendingTransaction,
    unix_nanos: u128,
    action: ListenerAction,
)
    requires
        board.well_formed(),
        0 <= id < DEXCOUNT,
        configures(monitor.config, id),
        board.prices[id] == monitor.last_price,
        tx.to is Some,
        tx.to->0@ == pool_address(id),
        responds(ListenerEvent::Found { tx_hash, tx, unix_nanos }, action),
        monitor.accepts(ChannelEvent::Received(action->Forward_0)),
    ensures
        action is Forward,
        action->Forward_0.pool_id == monitor.config.id,
        board.after(monitor.action(ChannelEvent::Received(action->Forward_0))).prices
            == board.prices.update(
            id,
            (board.prices[id] + price_impact(
                board.prices[id] as nat,
                tx.value@,
                pool_type(id),
            )) as u64,
        ),
        board.prices[id] + price_impact(board.prices[id] as nat, tx.value@, pool_type(id))
            <= u64::MAX,
{
    law_pool_transaction_forwarded(id, tx_hash, tx, unix_nanos, action);
    law_impact_never_saturates(monitor.last_price as nat, tx.value@, monitor.config.dex_type);
    assert(board.prices.update(id, board.prices[id]) =~= board.prices);
}

/// Actions of monitors of different pools can be carried out in either order.
pub proof fn law_pools_are_independent(board: Board, one: MonitorAction, other: MonitorAction)
    requires
        board.well_formed(),
        one is Publish && other is Publish ==> {
            &&& one->Publish_0.pool_id != other->Publish_0.pool_id
            &&& one->Publish_0.pool_id < DEXCOUNT
            &&& other->Publish_0.pool_id < DEXCOUNT
        },
    ensures
        board.after(one).after(other) == board.after(other).after(one),
{
    let a = board.after(one).after(other);
    let b = board.after(other).after(one);
    assert(a.prices =~= b.prices);
    assert(a.flags =~= b.flags);
}

} // verus!
