# sealevel_checks

Verified models of Solana programs, each in a vulnerable and a fixed form, that
show the security checks a Sealevel program needs: signer and owner checks,
derived addresses, account life cycle, arithmetic, cross-program calls, data
validation, upgrades, casts, signature introspection and account confusion, and
a constant-product market maker.

## Layout

- `src/` is the library, verified with Verus. Each category is a module
  (`access_control`, `account_life_cycle`, `logic_and_arithmetic`, `cpi_bugs`,
  `data_validation`, `program_upgrade`, `type_casting`, `signature_bugs`,
  `account_confusion`, `challenges`), split into `anchor` and `pinocchio`
  programs, one file per program. Every instruction has a contract that fixes
  its result, its errors and the accounts after it; the laws the programs are
  about (what the fix refuses, what the bug lets through) are public proof
  functions beside them.
- `src/runtime.rs` and `src/framework.rs` model the runtime's accounts and the
  account checks Anchor performs; `src/bytes.rs` and `src/text.rs` hold the
  byte-level reading and writing the programs do.
- `src/outside.rs` holds the trusted items: the calls into `solana_program`
  (address derivation, base58 text, the instructions sysvar), each with the
  contract Verus takes on trust.
- Instructions do not perform cross-program calls or emit events themselves:
  they return the calls (`SystemTransfer`, `TokenInstruction`, `Instruction`)
  and the events as values, which the caller carries out and emits. A failed
  instruction leaves every account as it was, as the runtime does.
- `app/` is the unverified side: converting the runtime's accounts, reading
  the clock and rent, carrying out the calls, and entry points for the
  programs written against the raw runtime interface.
- `tests/` runs the instructions on concrete accounts.
