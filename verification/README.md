# pinocchio_multisig

A multisignature wallet program for Solana, written with the Pinocchio
framework, whose logic is verified with Verus.

A multisig account holds a 90-byte header (creator, thresholds, expiry
duration, counters, vault, id, bumps) followed by one 34-byte record per
member (key, id, role). Any member creates proposals, which expire a configured number of seconds
after creation; members vote yes, no or veto, and a
proposal is settled once its votes reach the thresholds.

## Layout

- `src/` — the verified library.
  - `state/` — the account layouts (`Multisig`, `Member`, `Proposal`,
    `Vault`) with their byte encodings, the searches over the member records,
    and the seeds of the program-derived addresses.
  - `instruction/` — the payload of each instruction and the decisions each
    one makes: account checks, address checks, authorization, and the new
    contents of the accounts.
  - `laws.rs` — properties that span operations: what adding and removing
    members does to the member records, how votes keep the voter list in
    sections, that a member votes once, that a settled proposal is final.
  - `clock.rs` — the read of the cluster's clock.
- `app/` — the on-chain entrypoint: it reads the accounts, asks the runtime
  for derived addresses and rent, makes the system-program calls, and writes
  back what the library computed.
- `tests/` — runs of the instructions on in-memory accounts, and checks of
  the encodings, the searches and each error.

Everything under `src/` is checked by Verus. Each public function states in
its contract what it returns for every input it accepts; the two that read
the cluster's clock (`Proposal::new` and `settle_proposal_now`) state that a
failed read is a `Runtime` error and that success comes from some reading,
and `Proposal::new_at` and `settle_proposal` state the exact result for a
given reading.
