# solana_client_ext

Extensions of the Solana RPC client that estimate how many compute units a transaction needs and
request no more than that.

- `src/` is the library, verified with Verus: the estimates, the instruction that requests the
  units, the account cache and what a transaction is run with. It does no I/O.
- `app/` is the client around it: `RpcClientExt` for `RpcClient`, and the virtual machine that runs
  transactions on accounts of the ledger.
- `tests/` runs the library against the Solana crates.

The functions marked `external_body`, and one `assume_specification`, state what is taken on trust
of the Solana crates.
