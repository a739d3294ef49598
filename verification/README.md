# outcome-markets

Binary outcome markets settled against Pyth price updates, with every decision of the
on-chain program stated as a contract and proved with Verus.

A market holds collateral in a vault and issues YES and NO tokens:

- `split(amount)` takes `amount` collateral and mints `amount` YES and `amount` NO;
- `merge(amount)` burns `amount` YES and `amount` NO and pays back `amount` collateral, at
  any time, before or after resolution;
- `set_start_price` records the start price of an up/down market once;
- `resolve` settles the market once, from a fully verified oracle update published at or
  after the end time;
- `claim(amount)` burns `amount` winning tokens and pays `amount` collateral.

## Layout

- `src/state.rs`: markets, market types, their address encoding and outcome rules.
- `src/oracle.rs`: the price update as the program reads it, and the oracle checks
  (verification level compared by the Pyth receiver SDK).
- `src/token.rs`: signer seeds and the token program calls that instructions decide on.
- `src/instructions.rs`: each instruction as a function from market state, accounts and
  clock to the new state and the token or metadata program calls to make, or the error.
  The program emits no events; `src/events.rs` keeps record types for clients.
- `src/error.rs`, `src/constants.rs`: errors and seeds.
- `src/ledger.rs`: what token calls do to balances and supplies.
- `src/laws.rs`: properties of the market's state: a market is resolved and its start price
  recorded at most once, merge is always available, only the winning side can be claimed,
  and market addresses identify their parameters.
- `src/backing.rs`: properties of the tokens: split then merge restores every balance,
  split, merge and claim exchange one for one, and through any history of instructions and
  outside token calls (holders burning tokens, deposits into the vault) the vault keeps
  covering every matched pair and every winning token, and the market keeps its identity.
- `app/`: the Anchor program around the library (accounts, clock, token and metadata
  program calls).
- `tests/`: scenarios run against the library.
