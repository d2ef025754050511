# price_feed

A price feed for Ethereum exchange pools, with its decisions verified by Verus.

- `src/` is the verified library: the pool table, price queries and their
  decoding, the routing of pending transactions, price impacts and the pool
  monitor.
- `app/` is the program: the WebSocket connection, the threads, and the shared
  memory that the daemons read.
- `tests/` exercises the library with the real `ethers` and `hex`.

Functions that would overflow on a value from the chain, or read past a reply,
exclude it in `requires`; beside each stands a function that tells whether the
value is admitted (`is_sqrt_price_in_range`, `is_slot0_readable`,
`PriceQuery::can_use`, `PriceMonitor::can_take` and the like), which the program
calls first.
