//! A price feed for Ethereum exchange pools.
//!
//! The library decides everything that the feed does: which pools there are
//! ([`pools`]), what to ask the chain for their prices ([`query`]) and what the
//! replies say ([`pricing`]), where the first prices go ([`startup`]), which
//! pending transactions matter to which pool ([`mempool`]), how far they move
//! its price ([`impact`]), what the pool's monitor publishes ([`monitor`]), and
//! which monitors run ([`feed`]).
//! [`board`] and [`order`] state what all this means for the shared memory that
//! the daemons read. What each operation is for is stated over its inputs and
//! results in [`price_laws`], [`text_laws`], [`pool_laws`] and [`flow_laws`].
//! The program around it talks to the node, runs the threads and keeps the
//! shared memory.
//!
//! Numbers of 256 bits ([`uint256`]) and the textual form of addresses
//! ([`address`]) are computed by `ethers`, and selectors are read by `hex`
//! ([`hexcode`]).

pub mod address;
pub mod board;
pub mod feed;
pub mod flow_laws;
pub mod hexcode;
pub mod impact;
pub mod mempool;
pub mod monitor;
pub mod order;
pub mod pool_laws;
pub mod pools;
pub mod price_laws;
pub mod pricing;
pub mod primitives;
pub mod query;
pub mod startup;
pub mod text_laws;
pub mod uint256;
