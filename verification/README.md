# pump_cli

A command-line client for the Pump.fun bonding curve and the PumpSwap AMM on
Solana, whose core is a library verified with Verus.

## Layout

- `src/` — the verified library:
  - `pubkey`, `bytes`, `text`, `instruction`: addresses, little-endian
    fields, decimal text and the instruction model.
  - `bonding_curve`, `pump_swap`, `trade`: account layouts, constant-product
    pricing, fees, slippage limits and trade plans, with the laws they keep
    (buys round up, sells and swaps never lower the reserves' product,
    buying then selling back loses).
  - `pda`, `token_accounts`, `instructions`, `create`, `signer`, `jito`: derived
    addresses, instruction encoding, transaction assembly and Jito bundles.
  - `global`: the on-chain fee-recipient arrays and their round-robin
    selection.
  - `wallet`: keypairs from raw bytes, base58 keys and BIP-39 phrases.
  - `snipe`: recognising new tokens in the Pump program's logs.
  - `rug_check`, `config`, `cmd`: heuristics, settings and the command
    vocabulary.
  - `outside`: the shared calls into the Solana SDK, SPL and hashing crates,
    with the contracts the rest of the library relies on; calls that one
    module alone makes (BIP-39, base58, base64, character classes) stand in
    that module, each marked as taken on trust.
- `tests/` — tests of the library.
- `app/` — the program: argument parsing, files, RPC, signing and printing.
