# simple_v2_sandwicher

A sandwich bot for Uniswap-V2-style swaps, with its decision and arithmetic
core verified in Verus.

- `src/` — the verified library:
  - `base_fee`: the EIP-1559 forecast of the next base fee, with its laws
    (unchanged at target, rises above it, falls below it, monotone in gas used).
  - `amm`: the constant-product pool model (swap, sandwich profit, victim
    slippage), with exact `i64` semantics and its laws.
  - `encoding`: hex text of bytes, addresses and 256-bit amounts.
  - `swap_tx`: the checks that turn a router call into a sandwich opportunity,
    and the choice of the best opportunity.
  - `reader`: the machine that reads a pending transaction into an opportunity.
  - `sandwich`: the victim's fees and the machine that builds and vets a bundle.
- `app/` — the program around it: chain and file I/O, ABI decoding, threads,
  and the floating-point search for the best front run.
- `tests/` — tests of the library on concrete values.
