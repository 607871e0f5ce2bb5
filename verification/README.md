# hotstuff2

A HotStuff-2 consensus library whose logic is verified with Verus.

- `src/` — the verified library: data types and hashing (`types`), BLS signature checks and
  threshold signing (`crypto`), consensus messages (`message`), the decision cores of the HotStuff-2 replica and
  of the complete engine (`protocol::hotstuff2`, `protocol::hotstuff2_complete`), recovery
  (`protocol::recovery`), block storage and the mempool (`storage`), load-test support
  (`testing`), the timer registry (`timer`), and the laws of the protocol (`protocol::laws`).
- `app/` — the asynchronous drivers that run the cores on tokio, the timer service, the
  RocksDB block store and the serde records.
- `tests/` — executable tests of the library.
