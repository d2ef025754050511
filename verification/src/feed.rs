//! The feed as a whole: its pools, and the threads and channels of their
//! monitors.

use crate::address::InvalidAddress;
use crate::mempool::{is_event_of, MempoolTxEvent, PendingTransaction};
use crate::pools::{
    is_pool_table, law_pool_tables_agree, pool_configs, PoolConfig, DEXCOUNT,
};
use crate::primitives::Hash256;
use vstd::prelude::*;

verus! {

/// A feed: its pools, the pool of each monitor thread, and the pool of each
/// channel that transactions are sent to.
#[derive(Debug, PartialEq, Eq)]
pub struct Feed {
    pub pool_configs: Vec<PoolConfig>,
    pub pool_threads: Vec<usize>,
    pub tx_senders: Vec<usize>,
}

/// The ids of pools, in their order.
pub open spec fn pool_ids(configs: Seq<PoolConfig>) -> Seq<usize> {
    Seq::new(configs.len(), |i: int| configs[i].id)
}

impl Feed {
    /// A feed that has its pools, and neither threads nor channels yet.
    pub open spec fn is_new(self) -> bool {
        &&& is_pool_table(self.pool_configs@)
        &&& self.pool_threads@.len() == 0
        &&& self.tx_senders@.len() == 0
    }

    /// A feed of all pools whose monitors are not started.
    pub fn new() -> (r: Result<Feed, InvalidAddress>)
        ensures
            r is Ok,
            r->Ok_0.is_new(),
    {
        let configs = pool_configs()?;
        Ok(Feed { pool_configs: configs, pool_threads: Vec::new(), tx_senders: Vec::new() })
    }

    /// Starts the monitors: one thread and one channel per pool, in the order
    /// of the pools. Earlier threads stay, earlier channels are replaced. The
    /// pools to start monitors for are returned in that order.
    pub fn start_monitoring(&mut self) -> (started: Vec<PoolConfig>)
        ensures
            started@ == old(self).pool_configs@,
            final(self).pool_configs == old(self).pool_configs,
            final(self).tx_senders@ == pool_ids(old(self).pool_configs@),
            final(self).pool_threads@ == old(self).pool_threads@ + pool_ids(
                old(self).pool_configs@,
            ),
    {
        let ghost configs = self.pool_configs@;
        let ghost threads = self.pool_threads@;
        let mut started: Vec<PoolConfig> = Vec::new();
        let mut tx_senders: Vec<usize> = Vec::new();
        let mut i: usize = 0;
        while i < self.pool_configs.len()
            invariant
                i <= configs.len(),
                self.pool_configs == old(self).pool_configs,
                self.pool_configs@ == configs,
                started@ == configs.take(i as int),
                tx_senders@ == pool_ids(configs.take(i as int)),
                self.pool_threads@ == threads + pool_ids(configs.take(i as int)),
            decreases configs.len() - i,
        {
            let config = self.pool_configs[i];
            started.push(config);
            tx_senders.push(config.id);
            self.pool_threads.push(config.id);
            i = i + 1;
            assert(started@ =~= configs.take(i as int));
            assert(tx_senders@ =~= pool_ids(configs.take(i as int)));
            assert(self.pool_threads@ =~= threads + pool_ids(configs.take(i as int)));
        }
        assert(configs.take(i as int) =~= configs);
        self.tx_senders = tx_senders;
        started
    }
}

/// Two new feeds have the same pools, whose addresses are pairwise distinct,
/// and neither has a thread or a channel.
pub proof fn law_new_feeds_agree(a: Feed, b: Feed)
    requires
        a.is_new(),
        b.is_new(),
    ensures
        a.pool_configs@.len() == b.pool_configs@.len() == DEXCOUNT,
        forall|i: int|
            #![trigger a.pool_configs@[i]]
            #![trigger b.pool_configs@[i]]
            0 <= i < DEXCOUNT ==> {
                &&& a.pool_configs@[i].id == b.pool_configs@[i].id == i
                &&& a.pool_configs@[i].address@ == b.pool_configs@[i].address@
                &&& a.pool_configs@[i].dex_type == b.pool_configs@[i].dex_type
                &&& a.pool_configs@[i].name@ == b.pool_configs@[i].name@
            },
        forall|i: int, j: int|
            0 <= i < j < DEXCOUNT ==> (#[trigger] a.pool_configs@[i]).address@ != (
            #[trigger] a.pool_configs@[j]).address@,
        a.pool_threads@ == Seq::<usize>::empty(),
        b.pool_threads@ == Seq::<usize>::empty(),
        a.tx_senders@ == Seq::<usize>::empty(),
        b.tx_senders@ == Seq::<usize>::empty(),
{
    law_pool_tables_agree(a.pool_configs@, b.pool_configs@);
}

/// The channel at a forwarded transaction's pool id is that of the pool at the
/// transaction's receiver.
pub proof fn law_channel_of_forwarded_transaction(
    configs: Seq<PoolConfig>,
    event: MempoolTxEvent,
    tx_hash: Hash256,
    tx: PendingTransaction,
    unix_nanos: u128,
)
    requires
        is_pool_table(configs),
        is_event_of(event, tx_hash, tx, unix_nanos),
    ensures
        event.pool_id < pool_ids(configs).len(),
        pool_ids(configs)[event.pool_id as int] == event.pool_id,
        configs[event.pool_id as int].address@ == tx.to->0@,
{
    assert(configs[event.pool_id as int].id == event.pool_id);
}

} // verus!
