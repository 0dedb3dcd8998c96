# blueshift_escrow

A maker/taker token escrow for Solana, written as a Verus-verified library
plus a thin on-chain shell.

- `src/` — the verified library.
  - `account.rs`: the account values the program reads (address, owner,
    signer flag, lamports, data) and byte-wise address comparison.
  - `state.rs`: the 113-byte escrow record, its little-endian fields, and
    `load` / `store` / `set_inner` / `receive` with their round-trip lemmas.
  - `pda.rs`: the one trusted call, program-address derivation through
    pinocchio.
  - `cpi.rs`: the cross-program calls an instruction asks for, and the
    escrow signer seeds.
  - `instructions/`: account checks (`helpers.rs`), the `make`, `take` and
    `refund` instructions, and lemmas relating what `make` writes to what
    `take` and `refund` read (`lifecycle.rs`).
  - `processor.rs`: the one-byte discriminator (`0` make, `1` take,
    `2` refund).
- `app/` — the entrypoint: copies runtime accounts into the library's values,
  runs the library's decisions and performs the calls it returns.
- `tests/` — tests against the compiled library with the real pinocchio
  crates linked.
