# soroswap_adapters

Contract logic of Soroswap aggregator adapters, verified with Verus.

- `src/host.rs`: the Soroban host services the contracts use (instance
  storage and the instance's life, ledger time, authorization, router
  calls), each behind a small trusted function. The environment is modelled
  by its instance entries, the instance's live-until ledger, the ledger's
  sequence and maximum, and the record of what the invocation asked of the
  host (authorizations, time reads, router calls with their answers). What
  the network's clock or the router answers is not stated; the contracts
  state what the adapter does with each answer. A swap requires that the
  invocation carry the recipient's authorization (the host aborts it
  otherwise), and the router is called only at a contract address: any
  other stored address is answered with `ProtocolSwapFailed`.
- `src/adapter.rs`, `src/adapter_storage.rs`, `src/protocol_interface.rs`:
  the Soroswap adapter contract: one-time initialization with a protocol id
  and router address, argument and deadline checks, and swaps forwarded to
  the router.
- `src/proxy_storage.rs`: the instance storage of the Phoenix proxy.
- `app/lib.rs`: the deployable contract (interface, error codes, events)
  around the verified logic.
