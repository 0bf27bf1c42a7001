# alloy_reth_provider

A reth-style chain-state provider that reads from an Ethereum JSON-RPC node, with
its decision logic verified by Verus.

- `src/` — the verified library. `provider.rs` turns the node's answers about
  blocks, headers and the chain id into provider results; `state_lookup.rs` decides,
  step by step, which block a state request resolves to; `state_provider.rs` reads
  accounts, storage and block hashes of one block and keeps the contract code it
  meets in `bytecode_cache.rs`; `bytecode.rs` holds the trusted revm and alloy items;
  `primitives.rs` the plain data types and errors.
- `app/` — the unverified shell: it issues the node requests with alloy on a tokio
  runtime, converts alloy values, holds the lock around the state provider, and
  feeds the answers to the library.
- `tests/` — tests of the library on concrete values.

## Modelled items

reth's crates are not available here, so the library holds its own forms of the reth
items the provider deals in: `ProviderError` (with the node's own error carried in
`Other`), the chain configuration as `ChainSpecKind` (mainnet or Holesky), and the
account as `Account`. The reth provider traits are not implemented; their methods are
methods of `AlloyRethProvider` and `AlloyRethStateProvider` that take the node's
answers. The contract code met while reading accounts is kept in `BytecodeCache`, a
list of (hash, code) pairs in which no hash occurs twice, in place of a hash map keyed
by the code hash, so that what it holds can be stated and proved.
