# lux_session

Session tokens for a Solana program: a payer opens a token that lets a
session signer act against one target program until an expiry time, and may
revoke it later.

- `src/` is the verified library: the token and its status, validation at a
  given time, the account checks and handlers of the two instructions, the
  address seeds, the error codes, and proof functions (`src/laws.rs`) relating
  creation, revocation and validation.
- `app/` is the on-chain shell (Anchor and Light Protocol macros, the
  top-up transfer) that hands plain values to the library.
- `tests/` runs the library on concrete values.
