# multisig_display

A verified library behind a command that shows a Squads multisig
transaction: it decodes the instructions of well-known programs, resolves
the account keys of a vault transaction through address lookup tables, and
builds the lines that describe vault, config and batch transactions, as
colored pieces of text.

- `src/` is the library, verified with Verus: `text` and `amount` (numbers,
  hex, token amounts), `pubkey` (keys, their base-58 text, well-known
  programs and mints), `decode` (instruction summaries), `lookup_table` and
  `accounts` (key resolution), `render` (colored pieces), `display`,
  `config` and `command` (the displayed lines), `transaction` (the account
  kinds).
- `app/` is the command itself: options, RPC calls, account decoding,
  painting and printing.
- `tests/` runs the library on concrete values.
