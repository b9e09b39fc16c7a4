# ore_miner

A verified library for an ORE mining and claiming client on Solana, written
in Verus, with the command-line program around it under `app/`.

`src/` holds the decisions, each with a contract that Verus proves:

- `timing`: how long a mining round hashes, and when an epoch reset is due.
- `search`: the split of the nonce space among worker threads, one worker's
  search for the most difficult drillx hash, and the merge of their results.
- `mine`: the instructions and compute budget of a mining transaction.
- `claim`: the amount, beneficiary account and instructions of a claim.
- `confirm`: submitting a bundle, waiting, confirming and retrying, as a
  state machine whose runs are proved to end.
- `relay`: the messages exchanged with a solution relay.
- `jito`: the tip instruction and the reading of block-engine replies.
- `miner`: the miner's settings and signing key.
- `chain`, `instr`, `random`: the calls into the ORE SDK, the SPL and
  system programs and `rand`, with the contracts that are trusted.

`app/` performs the network, terminal, file and thread work and feeds the
results to the library. `tests/` runs the library on concrete values.
