# token_presale

A token presale: the whole supply is minted once into a vault, a tenth of it
is sold during the presale, and the rest stays in a reserve that the admin
releases for sale after the presale ends. Buyers pay USDT at the admin's
price, in purchases of at least ten tokens and up to fifty thousand tokens
per wallet over its lifetime. The admin can pause sales and withdraw the
USDT proceeds within a daily limit.

- `src/` is the verified library. `instructions/` holds one module per
  instruction: the accounts it reads as plain values, its outcome as a spec
  function, and the handler proved to compute exactly that outcome, leaving
  the accounts untouched when it refuses. `token_presale.rs` holds the
  program's entry points, `laws.rs` the properties that span instructions
  (token accounting, the wallet cap, the daily limit, who may act and when).
- `app/` is the on-chain program: it loads accounts, reads the clock, calls
  the library, writes the accounts back and performs the token transfers,
  mints and event logs the library's results ask for.
- `tests/` runs the library on concrete accounts.

The program is built with overflow checks on (`overflow-checks = true` in the
release profile, as Anchor workspaces set it), so an arithmetic overflow in
an instruction aborts it. The library's handlers leave those inputs out by
their preconditions, and the `*_aborts` functions tell `app/` when to abort.

A purchase is checked against the sale's own accounts: the payment must be
in USDT and go to the sale's treasury, and the tokens must leave the sale's
vault into an account of the sale token.
