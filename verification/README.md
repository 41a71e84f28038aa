# floating_odds_exchange

A binary YES/NO prediction market whose prices follow a supply-ratio bonding curve,
written in Verus.

- `src/` is the verified library: the pricing, fee and payout arithmetic (`math`), the
  fixed-point numbers it is computed in (`fixed`, over `brine_fp`), checked integer
  arithmetic (`checked`, over `solana_math`) and fee rates (`basis`, over
  `basis_points`); the market account (`state`); and what each instruction decides
  (`instructions`, with the entry points in `program`). `laws` proves the properties
  that span instructions.
- `app/` is the on-chain program around the library: it parses accounts, derives the
  outcome mints' addresses, performs the token movements that the library asks for and
  emits the events.
- `tests/` runs the instruction flows against a small ledger of token balances.
