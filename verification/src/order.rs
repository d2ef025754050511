//! The order of the writes to the shared memory, as the daemons may observe it.

use crate::board::{law_price_never_falls, monitor_after, takes_all, Board};
use crate::monitor::{
    law_published_price_rises, ChannelEvent, MonitorAction, PriceMonitor, SharedWrite,
};
use crate::pools::DEXCOUNT;
use vstd::prelude::*;

verus! {

impl Board {
    /// One write is made.
    pub open spec fn written(self, write: SharedWrite) -> Board {
        match write {
            SharedWrite::StorePrice { pool_id, price } => self.stored(pool_id as int, price),
            SharedWrite::ToggleFlag { pool_id } => self.notified(pool_id as int),
        }
    }

    /// A row of writes is made, one after the other.
    pub open spec fn written_all(self, writes: Seq<SharedWrite>) -> Board
        decreases writes.len(),
    {
        if writes.len() == 0 {
            self
        } else {
            self.written_all(writes.drop_last()).written(writes.last())
        }
    }
}

/// The pool that a write is for.
pub open spec fn written_pool(write: SharedWrite) -> usize {
    match write {
        SharedWrite::StorePrice { pool_id, .. } => pool_id,
        SharedWrite::ToggleFlag { pool_id } => pool_id,
    }
}

/// How many of the writes store a price.
pub open spec fn stores(writes: Seq<SharedWrite>) -> nat
    decreases writes.len(),
{
    if writes.len() == 0 {
        0
    } else {
        stores(writes.drop_last()) + if writes.last() is StorePrice {
            1nat
        } else {
            0nat
        }
    }
}

/// How many of the writes toggle a flag.
pub open spec fn toggles(writes: Seq<SharedWrite>) -> nat
    decreases writes.len(),
{
    if writes.len() == 0 {
        0
    } else {
        toggles(writes.drop_last()) + if writes.last() is ToggleFlag {
            1nat
        } else {
            0nat
        }
    }
}

/// The writes that a monitor makes in a row of events.
pub open spec fn writes_of(monitor: PriceMonitor, events: Seq<ChannelEvent>) -> Seq<SharedWrite>
    decreases events.len(),
{
    if events.len() == 0 {
        Seq::empty()
    } else {
        writes_of(monitor, events.drop_last()) + monitor_after(
            monitor,
            events.drop_last(),
        ).action(events.last()).write_order()
    }
}

/// The prices that a monitor publishes in a row of events.
pub open spec fn published(monitor: PriceMonitor, events: Seq<ChannelEvent>) -> Seq<u64>
    decreases events.len(),
{
    if events.len() == 0 {
        Seq::empty()
    } else {
        match monitor_after(monitor, events.drop_last()).action(events.last()) {
            MonitorAction::Publish(update) => published(monitor, events.drop_last()).push(
                update.new_price,
            ),
            _ => published(monitor, events.drop_last()),
        }
    }
}

/// All the writes of an action together carry it out.
pub proof fn law_writes_carry_out_action(board: Board, action: MonitorAction)
    ensures
        board.written_all(action.write_order()) == board.after(action),
{
    let writes = action.write_order();
    if action is Publish {
        assert(writes.drop_last().drop_last() =~= Seq::empty());
        assert(board.written_all(writes.drop_last().drop_last()) == board);
        assert(board.written_all(writes.drop_last()) == board.written(writes[0]));
    }
}

/// However many of an action's writes have been made, a changed flag goes with
/// the new price.
pub proof fn law_changed_flag_shows_new_price(board: Board, action: MonitorAction, made: int)
    requires
        board.well_formed(),
        action is Publish,
        action->Publish_0.pool_id < DEXCOUNT,
        0 <= made <= action.write_order().len(),
    ensures
        ({
            let id = action->Publish_0.pool_id as int;
            let seen = board.written_all(action.write_order().take(made));
            seen.flags[id] != board.flags[id] ==> seen.prices[id] == action->Publish_0.new_price
        }),
{
    let writes = action.write_order();
    let some = writes.take(made);
    if made == 1 {
        assert(some.drop_last() =~= Seq::empty());
        assert(board.written_all(some.drop_last()) == board);
    } else if made == 2 {
        assert(some =~= writes);
        law_writes_carry_out_action(board, action);
    }
}

/// A write changes nothing of another pool.
pub proof fn law_write_stays_in_its_pool(board: Board, write: SharedWrite, other: int)
    requires
        board.well_formed(),
        written_pool(write) < DEXCOUNT,
        0 <= other < DEXCOUNT,
        other != written_pool(write),
    ensures
        board.written(write).well_formed(),
        board.written(write).prices[other] == board.prices[other],
        board.written(write).flags[other] == board.flags[other],
{
}

/// A monitor's writes alternate: each published price is stored, and the flag
/// toggled right after it.
pub proof fn law_writes_alternate(monitor: PriceMonitor, events: Seq<ChannelEvent>)
    requires
        takes_all(monitor, events),
    ensures
        writes_of(monitor, events).len() == 2 * published(monitor, events).len(),
        forall|n: int|
            0 <= n < writes_of(monitor, events).len() ==> #[trigger] writes_of(monitor, events)[n]
                == (if n % 2 == 0 {
                SharedWrite::StorePrice {
                    pool_id: monitor.config.id,
                    price: published(monitor, events)[n / 2],
                }
            } else {
                SharedWrite::ToggleFlag { pool_id: monitor.config.id }
            }),
    decreases events.len(),
{
    if events.len() > 0 {
        law_writes_alternate(monitor, events.drop_last());
        law_price_never_falls(monitor, events.drop_last());
    }
}

/// The prices that a monitor publishes rise.
pub proof fn law_published_prices_rise(monitor: PriceMonitor, events: Seq<ChannelEvent>)
    requires
        takes_all(monitor, events),
    ensures
        forall|j: int|
            0 <= j < published(monitor, events).len() ==> #[trigger] published(monitor, events)[j]
                <= monitor_after(monitor, events).last_price,
        forall|i: int, j: int|
            0 <= i < j < published(monitor, events).len() ==> #[trigger] published(
                monitor,
                events,
            )[i] < #[trigger] published(monitor, events)[j],
    decreases events.len(),
{
    if events.len() > 0 {
        law_published_prices_rise(monitor, events.drop_last());
        let before = monitor_after(monitor, events.drop_last());
        let after = monitor_after(monitor, events);
        let earlier = published(monitor, events.drop_last());
        let prices = published(monitor, events);
        assert(after == before.next(events.last()));
        if before.action(events.last()) is Publish {
            law_published_price_rises(before, events.last());
            assert(prices == earlier.push(after.last_price));
            assert(forall|j: int|
                0 <= j < earlier.len() ==> #[trigger] earlier[j] < after.last_price);
        } else {
            assert(prices == earlier);
        }
    }
}

/// What the shared memory shows of a pool after the first `made` writes of its
/// monitor.
proof fn lemma_after_writes(
    board: Board,
    monitor: PriceMonitor,
    events: Seq<ChannelEvent>,
    made: int,
)
    requires
        board.well_formed(),
        monitor.config.id < DEXCOUNT,
        takes_all(monitor, events),
        0 <= made <= writes_of(monitor, events).len(),
    ensures
        ({
            let some = writes_of(monitor, events).take(made);
            let seen = board.written_all(some);
            &&& seen.well_formed()
            &&& stores(some) == (made + 1) / 2
            &&& toggles(some) == made / 2
            &&& made > 0 ==> seen.prices[monitor.config.id as int] == published(monitor, events)[(
            made + 1) / 2 - 1]
        }),
    decreases made,
{
    law_writes_alternate(monitor, events);
    let all = writes_of(monitor, events);
    let some = all.take(made);
    if made > 0 {
        lemma_after_writes(board, monitor, events, made - 1);
        assert(some.drop_last() =~= all.take(made - 1));
        assert(some.last() == all[made - 1]);
    }
}

/// A daemon that has seen a pool's flag toggled `k` times, and reads the price
/// then or later, never reads a price older than the `k`-th published one: it
/// reads the price that was stored last, as many have been stored by then as
/// the flag was seen toggled at least, and the prices only rise.
pub proof fn law_flag_never_ahead_of_price(
    board: Board,
    monitor: PriceMonitor,
    events: Seq<ChannelEvent>,
    flag_read: int,
    price_read: int,
)
    requires
        board.well_formed(),
        monitor.config.id < DEXCOUNT,
        takes_all(monitor, events),
        0 <= flag_read <= price_read <= writes_of(monitor, events).len(),
        toggles(writes_of(monitor, events).take(flag_read)) > 0,
    ensures
        ({
            let k = toggles(writes_of(monitor, events).take(flag_read));
            let last = stores(writes_of(monitor, events).take(price_read));
            let price = board.written_all(
                writes_of(monitor, events).take(price_read),
            ).prices[monitor.config.id as int];
            &&& k <= last <= published(monitor, events).len()
            &&& price == published(monitor, events)[last - 1]
            &&& price >= published(monitor, events)[k - 1]
        }),
{
    law_writes_alternate(monitor, events);
    lemma_after_writes(board, monitor, events, flag_read);
    lemma_after_writes(board, monitor, events, price_read);
    law_published_prices_rise(monitor, events);
}

} // verus!
