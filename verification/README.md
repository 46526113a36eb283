# tradestars_arena

The rules of the TradeStars arena program, verified with Verus.

- `src/` is the verified library. Each instruction is a module under
  `src/instructions/`. It holds the accounts that the instruction reads and
  writes, as plain data (keys are 32-byte arrays), and a `handler` whose
  contract gives the exact outcome: the error of the first failed check, or
  the new account states and the event. On an error nothing changes.
  `src/utils.rs` has the shared arithmetic, the Merkle settlement proofs and
  the settlement and refund steps. `src/laws.rs` proves the properties that
  hold across instructions: every arena keeps its pool accounting and payout
  cap, every user account stays solvent, arenas follow their lifecycle, and
  roots, disputes, resolutions and withdrawal nonces can each be used only
  once. `src/external.rs` holds the trusted calls into the Solana crates:
  Keccak hashing, program-derived and associated-token addresses, the
  Token-2022 program id, and the size of the mint account.
- `app/` is the Anchor program around the library. It loads and validates
  accounts, makes the token CPIs (mint and burn), writes the accounts back
  and emits events.
- `tests/` runs the library against concrete scenarios, with the real
  Solana crates linked.
