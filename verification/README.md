# vaults

Verified instruction logic of three small Solana vault programs.

- `pinocchio_vault`: a vault per owner at the address derived from
  `b"vault"` and the owner's key; deposits into an empty vault, withdrawals
  of the whole balance.
- `scep_vault`: a vault per secp256r1 key; withdrawals need a secp256r1
  instruction in the same transaction whose signed message names the payer
  and an expiry time. `process_instruction` dispatches on the first byte.
- `anchor_vault`, `anchor_rent_vault`: a vault per signer with the account
  checks of its Anchor account context; the second version refuses deposits
  that do not exceed the rent-exempt minimum.
- `secp256r1`: contracts for the calls into `pinocchio-secp256r1-instruction`.
- `pda`: the program-derived-address calls, `account`, `bytes`, `error`,
  `transfer`: shared pieces.

The library decides what is checked, which error is returned and which
transfer is made; `app/` reads the accounts and sysvars, converts errors and
invokes the system program.
