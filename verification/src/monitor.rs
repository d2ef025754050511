//! The monitor of one pool: pending transactions in, price updates out.

use crate::impact::{
    calculate_instant_price_impact, impact_computable, is_impact_computable,
    law_impact_never_saturates, price_impact,
};
use crate::mempool::MempoolTxEvent;
use crate::pools::PoolConfig;
use crate::primitives::Hash256;
use crate::uint256::Uint256;
use vstd::prelude::*;

verus! {

/// The nanoseconds beyond which a price update is reported as slow.
pub const SLOW_UPDATE_NANOS: u128 = 1000;

/// The nanoseconds for which an event flag is held.
pub const EVENT_FLAG_DURATION_NANOS: u64 = 100_000;

/// A change of a pool's price.
#[derive(Debug, Clone, Copy, PartialEq, Eq)]
pub struct PriceUpdateEvent {
    pub pool_id: usize,
    pub old_price: u64,
    pub new_price: u64,
    pub timestamp_nanos: u64,
    pub tx_hash: Hash256,
}

/// What a monitor finds in its channel.
#[derive(Debug, Clone, Copy, PartialEq, Eq)]
pub enum ChannelEvent {
    /// A transaction to the pool.
    Received(MempoolTxEvent),
    /// Nothing yet.
    Empty,
    /// Nothing any more.
    Disconnected,
}

/// What a monitor does next.
#[derive(Debug, Clone, Copy, PartialEq, Eq)]
pub enum MonitorAction {
    /// Store the new price, then toggle the pool's event flag, and look again.
    Publish(PriceUpdateEvent),
    /// Look into the channel again.
    Continue,
    /// Pause for a moment and look again.
    Spin,
    /// End.
    Stop,
}

/// A write to the shared memory.
#[derive(Debug, Clone, Copy, PartialEq, Eq)]
pub enum SharedWrite {
    /// Store a pool's price.
    StorePrice { pool_id: usize, price: u64 },
    /// Toggle a pool's event flag.
    ToggleFlag { pool_id: usize },
}

impl MonitorAction {
    /// The writes of an action, in their order: an update stores the price
    /// before it toggles the flag.
    pub open spec fn write_order(self) -> Seq<SharedWrite> {
        match self {
            MonitorAction::Publish(update) => seq![
                SharedWrite::StorePrice { pool_id: update.pool_id, price: update.new_price },
                SharedWrite::ToggleFlag { pool_id: update.pool_id },
            ],
            _ => Seq::empty(),
        }
    }

    /// The writes of an action, in the order in which they are to be made.
    pub fn writes(&self) -> (r: Vec<SharedWrite>)
        ensures
            r@ == self.write_order(),
    {
        let mut writes: Vec<SharedWrite> = Vec::new();
        if let MonitorAction::Publish(update) = self {
            writes.push(
                SharedWrite::StorePrice { pool_id: update.pool_id, price: update.new_price },
            );
            writes.push(SharedWrite::ToggleFlag { pool_id: update.pool_id });
        }
        assert(writes@ =~= self.write_order());
        writes
    }
}

/// The monitor of a pool: the pool and the price last known.
#[derive(Debug, Clone, Copy, PartialEq, Eq)]
pub struct PriceMonitor {
    pub config: PoolConfig,
    pub last_price: u64,
}

impl PriceMonitor {
    /// How far a transaction moves the last price.
    pub open spec fn impact(self, tx_event: MempoolTxEvent) -> nat {
        price_impact(self.last_price as nat, tx_event.tx_value@, self.config.dex_type)
    }

    /// An event that the monitor can take: the impact of a transaction can be
    /// computed.
    pub open spec fn accepts(self, event: ChannelEvent) -> bool {
        event is Received ==> impact_computable(
            self.last_price as nat,
            event->Received_0.tx_value@,
            self.config.dex_type,
        )
    }

    /// The update that a transaction causes: the price rises by the impact.
    pub open spec fn update(self, tx_event: MempoolTxEvent) -> PriceUpdateEvent {
        PriceUpdateEvent {
            pool_id: self.config.id,
            old_price: self.last_price,
            new_price: (self.last_price + self.impact(tx_event)) as u64,
            timestamp_nanos: tx_event.timestamp_nanos,
            tx_hash: tx_event.tx_hash,
        }
    }

    /// What the monitor does after an event: it publishes the update of a
    /// transaction that has an impact.
    pub open spec fn action(self, event: ChannelEvent) -> MonitorAction {
        match event {
            ChannelEvent::Received(tx_event) => if self.impact(tx_event) > 0 {
                MonitorAction::Publish(self.update(tx_event))
            } else {
                MonitorAction::Continue
            },
            ChannelEvent::Empty => MonitorAction::Spin,
            ChannelEvent::Disconnected => MonitorAction::Stop,
        }
    }

    /// The monitor after an event: it holds the price that it published.
    pub open spec fn next(self, event: ChannelEvent) -> PriceMonitor {
        match self.action(event) {
            MonitorAction::Publish(update) => PriceMonitor {
                config: self.config,
                last_price: update.new_price,
            },
            _ => self,
        }
    }

    /// A monitor that starts from a pool's stored price.
    pub fn new(config: PoolConfig, price: u64) -> (monitor: PriceMonitor)
        ensures
            monitor == (PriceMonitor { config, last_price: price }),
    {
        PriceMonitor { config, last_price: price }
    }

    /// Tells whether the monitor can take an event.
    pub fn can_take(&self, event: &ChannelEvent) -> (r: bool)
        ensures
            r == self.accepts(*event),
    {
        match event {
            ChannelEvent::Received(tx_event) => {
                is_impact_computable(self.last_price, tx_event, &self.config)
            },
            _ => true,
        }
    }

    /// Takes an event.
    pub fn take(&mut self, event: &ChannelEvent) -> (action: MonitorAction)
        requires
            old(self).accepts(*event),
        ensures
            action == old(self).action(*event),
            *final(self) == old(self).next(*event),
    {
        match event {
            ChannelEvent::Received(tx_event) => {
                proof {
                    law_impact_never_saturates(
                        self.last_price as nat,
                        tx_event.tx_value@,
                        self.config.dex_type,
                    );
                }
                let price_impact: u64 = calculate_instant_price_impact(
                    self.last_price,
                    tx_event,
                    &self.config,
                );
                if price_impact > 0 {
                    let new_price: u64 = if tx_event.tx_value.exceeds(Uint256::zero()) {
                        self.last_price.saturating_add(price_impact)
                    } else {
                        self.last_price.saturating_sub(price_impact)
                    };
                    let update = PriceUpdateEvent {
                        pool_id: self.config.id,
                        old_price: self.last_price,
                        new_price,
                        timestamp_nanos: tx_event.timestamp_nanos,
                        tx_hash: tx_event.tx_hash,
                    };
                    self.last_price = new_price;
                    MonitorAction::Publish(update)
                } else {
                    MonitorAction::Continue
                }
            },
            ChannelEvent::Empty => MonitorAction::Spin,
            ChannelEvent::Disconnected => MonitorAction::Stop,
        }
    }
}

/// The value of an event flag after a notification: 0 turns to 1, and anything
/// else to 0.
pub open spec fn toggled(flag: u64) -> u64 {
    if flag == 0 {
        1
    } else {
        0
    }
}

/// Toggles an event flag.
pub fn toggle_flag(current_flag: u64) -> (new_flag: u64)
    ensures
        new_flag == toggled(current_flag),
{
    if current_flag == 0 {
        1
    } else {
        0
    }
}

/// Tells whether a price update took so long that it is reported.
pub fn is_slow_update(elapsed_nanos: u128) -> (r: bool)
    ensures
        r == (elapsed_nanos > SLOW_UPDATE_NANOS),
{
    elapsed_nanos > SLOW_UPDATE_NANOS
}

/// The core that a pool's thread is pinned to: the one at the pool's id among
/// the cores there are, if it reaches that far.
pub fn pinned_core(core_ids: &[usize], pool_id: usize) -> (r: Option<usize>)
    ensures
        r == (if pool_id < core_ids@.len() {
            Some(core_ids@[pool_id as int])
        } else {
            None
        }),
{
    if pool_id < core_ids.len() {
        Some(core_ids[pool_id])
    } else {
        None
    }
}

/// A notification always changes the flag, and leaves it 0 or 1.
pub proof fn law_notification_changes_flag(flag: u64)
    ensures
        toggled(flag) != flag,
        toggled(flag) == 0 || toggled(flag) == 1,
{
}

/// Two notifications bring a flag back.
pub proof fn law_two_notifications_cancel(flag: u64)
    requires
        flag == 0 || flag == 1,
    ensures
        toggled(toggled(flag)) == flag,
{
}

/// A published price is above the one before.
pub proof fn law_published_price_rises(monitor: PriceMonitor, event: ChannelEvent)
    requires
        monitor.accepts(event),
        monitor.action(event) is Publish,
    ensures
        ({
            let update = monitor.action(event)->Publish_0;
            &&& update.pool_id == monitor.config.id
            &&& update.old_price == monitor.last_price
            &&& update.new_price == monitor.last_price + monitor.impact(event->Received_0)
            &&& update.new_price > update.old_price
            &&& monitor.next(event).last_price == update.new_price
        }),
{
    law_impact_never_saturates(
        monitor.last_price as nat,
        event->Received_0.tx_value@,
        monitor.config.dex_type,
    );
}

} // verus!
