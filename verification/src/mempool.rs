//! Pending transactions on their way to the pools.

use crate::address::Address;
use crate::pools::{
    find_pool, law_pool_found_at_its_address, pool_address, pool_at, DEXCOUNT,
};
use crate::primitives::Hash256;
use crate::uint256::Uint256;
use vstd::prelude::*;

verus! {

/// The microseconds beyond which forwarding a transaction is reported as slow.
pub const SLOW_FORWARD_MICROS: u128 = 100;

/// What the feed reads of a pending transaction.
#[derive(Debug, Clone, Copy, PartialEq, Eq)]
pub struct PendingTransaction {
    /// The receiver; none where the transaction creates a contract.
    pub to: Option<Address>,
    pub value: Uint256,
}

/// A pending transaction to a pool.
#[derive(Debug, Clone, Copy, PartialEq, Eq)]
pub struct MempoolTxEvent {
    pub pool_id: usize,
    pub tx_hash: Hash256,
    pub tx_value: Uint256,
    pub target_address: Address,
    pub timestamp_nanos: u64,
}

/// What happens to the listener.
#[derive(Debug, Clone, Copy, PartialEq, Eq)]
pub enum ListenerEvent {
    /// The subscription to pending transactions stands.
    Subscribed,
    /// The subscription was refused.
    SubscriptionFailed,
    /// The stream gave the hash of a pending transaction.
    Announced(Hash256),
    /// The stream ended.
    StreamEnded,
    /// A transaction was found, so many nanoseconds after the Unix epoch.
    Found { tx_hash: Hash256, tx: PendingTransaction, unix_nanos: u128 },
    /// A transaction was not found, or asking for it failed.
    NotFound,
    /// A transaction was handed to its pool, or could not be.
    Sent { delivered: bool },
    /// So many microseconds have passed since the transaction was announced.
    Timed { elapsed_micros: u128 },
}

/// What the listener does next.
#[derive(Debug, Clone, Copy, PartialEq, Eq)]
pub enum ListenerAction {
    /// Wait for the next hash, after reporting a slow transaction.
    Await { report_slow: bool },
    /// Ask for a transaction.
    Fetch(Hash256),
    /// Hand a transaction to its pool.
    Forward(MempoolTxEvent),
    /// Take the time, after reporting a transaction that could not be handed on.
    Measure { report_undelivered: bool },
    /// End, and tell whether for want of a subscription.
    Stop { subscription_failed: bool },
}

/// The low 64 bits of a count of nanoseconds.
pub open spec fn low_nanos(unix_nanos: u128) -> int {
    unix_nanos as int % 0x1_0000000000000000
}

/// The event that a transaction is for the pool at its receiver's address.
pub open spec fn is_event_of(
    event: MempoolTxEvent,
    tx_hash: Hash256,
    tx: PendingTransaction,
    unix_nanos: u128,
) -> bool {
    &&& tx.to is Some
    &&& pool_at(tx.to->0@) == Some(event.pool_id as int)
    &&& event.tx_hash == tx_hash
    &&& event.tx_value == tx.value
    &&& event.target_address@ == tx.to->0@
    &&& event.timestamp_nanos == low_nanos(unix_nanos)
}

/// A transaction to one of the pools.
pub open spec fn targets_pool(tx: PendingTransaction) -> bool {
    tx.to is Some && pool_at(tx.to->0@) is Some
}

/// What the listener does after an event.
pub open spec fn responds(event: ListenerEvent, action: ListenerAction) -> bool {
    match event {
        ListenerEvent::Subscribed | ListenerEvent::NotFound => action == ListenerAction::Await {
            report_slow: false,
        },
        ListenerEvent::SubscriptionFailed => action == ListenerAction::Stop {
            subscription_failed: true,
        },
        ListenerEvent::Announced(tx_hash) => action == ListenerAction::Fetch(tx_hash),
        ListenerEvent::StreamEnded => action == ListenerAction::Stop { subscription_failed: false },
        ListenerEvent::Found { tx_hash, tx, unix_nanos } => if targets_pool(tx) {
            &&& action is Forward
            &&& is_event_of(action->Forward_0, tx_hash, tx, unix_nanos)
        } else {
            action == ListenerAction::Await { report_slow: false }
        },
        ListenerEvent::Sent { delivered } => action == ListenerAction::Measure {
            report_undelivered: !delivered,
        },
        ListenerEvent::Timed { elapsed_micros } => action == ListenerAction::Await {
            report_slow: elapsed_micros > SLOW_FORWARD_MICROS,
        },
    }
}

/// A transaction is forwarded only to one of the pools, and to the one whose
/// address is its receiver.
pub proof fn law_forwarded_to_its_pool(
    event: MempoolTxEvent,
    tx_hash: Hash256,
    tx: PendingTransaction,
    unix_nanos: u128,
)
    requires
        is_event_of(event, tx_hash, tx, unix_nanos),
    ensures
        event.pool_id < DEXCOUNT,
        event.target_address@ == pool_address(event.pool_id as int),
        tx.to->0@ == pool_address(event.pool_id as int),
{
}

/// A transaction to a pool is forwarded to that pool, whatever it holds.
pub proof fn law_pool_transaction_forwarded(
    id: int,
    tx_hash: Hash256,
    tx: PendingTransaction,
    unix_nanos: u128,
    action: ListenerAction,
)
    requires
        0 <= id < DEXCOUNT,
        tx.to is Some,
        tx.to->0@ == pool_address(id),
        responds(ListenerEvent::Found { tx_hash, tx, unix_nanos }, action),
    ensures
        action is Forward,
        action->Forward_0.pool_id == id,
        action->Forward_0.tx_value == tx.value,
        action->Forward_0.tx_hash == tx_hash,
{
    law_pool_found_at_its_address(id);
}

/// A transaction to no pool is passed over.
pub proof fn law_other_transaction_passed_over(
    tx_hash: Hash256,
    tx: PendingTransaction,
    unix_nanos: u128,
    action: ListenerAction,
)
    requires
        tx.to is Some ==> forall|id: int|
            0 <= id < DEXCOUNT ==> #[trigger] pool_address(id) != tx.to->0@,
        responds(ListenerEvent::Found { tx_hash, tx, unix_nanos }, action),
    ensures
        action == (ListenerAction::Await { report_slow: false }),
{
}

/// The timestamp of an event, in 64 bits.
pub fn timestamp(unix_nanos: u128) -> (r: u64)
    ensures
        r == low_nanos(unix_nanos),
{
    (unix_nanos % 0x1_0000000000000000u128) as u64
}

/// The event of a transaction, where its receiver is one of the pools.
pub fn route(tx_hash: Hash256, tx: &PendingTransaction, unix_nanos: u128) -> (r: Option<
    MempoolTxEvent,
>)
    ensures
        r is Some <==> targets_pool(*tx),
        r is Some ==> is_event_of(r->0, tx_hash, *tx, unix_nanos),
{
    match &tx.to {
        Some(to) => match find_pool(to) {
            Some(pool_id) => Some(
                MempoolTxEvent {
                    pool_id,
                    tx_hash,
                    tx_value: tx.value,
                    target_address: *to,
                    timestamp_nanos: timestamp(unix_nanos),
                },
            ),
            None => None,
        },
        None => None,
    }
}

/// What the listener does after an event.
pub fn next_action(event: &ListenerEvent) -> (action: ListenerAction)
    ensures
        responds(*event, action),
{
    match event {
        ListenerEvent::Subscribed | ListenerEvent::NotFound => ListenerAction::Await {
            report_slow: false,
        },
        ListenerEvent::SubscriptionFailed => ListenerAction::Stop { subscription_failed: true },
        ListenerEvent::Announced(tx_hash) => ListenerAction::Fetch(*tx_hash),
        ListenerEvent::StreamEnded => ListenerAction::Stop { subscription_failed: false },
        ListenerEvent::Found { tx_hash, tx, unix_nanos } => match route(*tx_hash, tx, *unix_nanos) {
            Some(tx_event) => ListenerAction::Forward(tx_event),
            None => ListenerAction::Await { report_slow: false },
        },
        ListenerEvent::Sent { delivered } => ListenerAction::Measure {
            report_undelivered: !*delivered,
        },
        ListenerEvent::Timed { elapsed_micros } => ListenerAction::Await {
            report_slow: *elapsed_micros > SLOW_FORWARD_MICROS,
        },
    }
}

} // verus!
