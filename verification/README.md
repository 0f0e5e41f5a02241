# Node services

Building blocks of a blockchain node and of the services around it, written in Verus.

- `src/node.rs`: the nodes of the consensus graph, the signatures and certificates over their
  digests, and the messages about them.
- `src/indexer/`: the cache worker copies a fullnode's transaction stream into a cache; the data
  service streams cached transactions to clients. `worker_laws.rs`, `chunk_order_laws.rs` and
  `run_laws.rs` state what holds of every run of the worker, `service_laws.rs` what holds of every
  run of the service.
- `src/monitoring/`: when a peer is asked for news of itself, what has been learned of the peers,
  and a mock of the peers. `tracker_laws.rs` states what holds of every history of a request
  tracker.
- `app/`: the outside work. It receives frames, writes to the cache, waits and sends, as the
  sessions of the library tell it to, and hands back what came of it.

A session is a value that takes in an event and gives back its successor and an action. The traits
in `app/indexer_io.rs` and `app/monitor_harness.rs` are what an embedder provides: the operators of
the cache and of the file store, the client of the fullnode, a clock that is moved by hand, and the
table of connected peers.
