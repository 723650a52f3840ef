# neo_flash

A flash loan program for Solana, as a verified library. An initialize
instruction creates the configuration account and records the fee, the
state, the authority and the treasury in it. A borrow instruction, signed by
the borrower, lends tokens out of a liquidity vault only when the
transaction ends with the program's repay instruction naming that vault as
its third account; the repay instruction reads the amount from the borrow
instruction that opens the transaction and transfers it plus the protocol's
fee from the borrower's token account back to that vault (see
`law_repayment_returns_to_lending_vault` in `src/laws.rs`).

- `src/` holds every decision of the program, verified with Verus: parsing the
  instruction data and accounts, loading the configuration account, the
  checks on the transaction's instructions, the fee arithmetic and the
  transfers or account creation to perform (`plan`). `laws.rs` states the
  properties that span these functions.
- `app/` is the on-chain entrypoint: it reads the accounts and the
  instructions sysvar that the runtime hands it, calls the library, and
  performs the planned cross-program invocations with `pinocchio`.
- `tests/` exercises the library on concrete transactions.
