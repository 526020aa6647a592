# narwhal_evm

The decisions of a node that orders EVM transactions with Narwhal, each with a
contract that it is proved to meet.

- `src/` is the verified library: worker store paths (`store`), the stored batch
  format (`worker_message`), transaction decoding (`transaction`), the delivery of
  a certificate's transactions (`delivery`, `run`), query answers (`rpc`,
  `shim_server`), the two engines' decision surfaces (`shim_engine`,
  `abci_engine`) and the clients' pacing and transfers (`bench`).
- `app/` is the plain Rust around it: channels, HTTP and TCP, the workers'
  RocksDB stores, the command lines, and the loops that carry out what the
  library decides.
- `tests/` runs the library on concrete values.
