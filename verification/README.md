# stellar_lend

A lending protocol whose logic is written in Verus and proved against its
contracts.

- `src/` is the library. `state::Protocol` holds the protocol's storage,
  the ledger clock and the queue of notices to publish. `contract::Contract`
  is the public interface; the modules under it (`deposit`, `borrow`,
  `repay`, `withdraw`, `liquidate`, `emergency`, `users`, `analytics`,
  `amm`, `oracle`, `governance`) hold the operations, and `laws` states the
  properties that span them.
- Token movements are performed by the host. A repayment or withdrawal
  starts with `Contract::repay` / `Contract::withdraw`, which return the
  transfer to perform and keep the operation pending; the host moves the
  tokens and reports the balances it observed to
  `Contract::complete_transfer`, which settles or rejects the operation.
- Oracle prices follow the same pattern: `Oracle::cached_price`, then
  `Oracle::live_sources` to learn whom to ask, then
  `Oracle::aggregate_price` with the quotes received.
- `app/` is the Soroban host glue: it reads balances and quotes through the
  SDK and publishes the notices as contract events.
