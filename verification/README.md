# nekoton_bridge (keystore front)

The verified part of a Flutter bridge to the nekoton keystore.

- `src/` (Verus): the synchronous decisions around every keystore call.
  - `encoding`: hex, base64, SHA-256 and JSON string literals, each behind one trusted
    wrapper of its crate, with the specs and lemmas the rest relies on.
  - `signer`: which JSON input each operation reads for each signer; ledger keys
    cannot be exported; the fake signer is excluded.
  - `keys`: public keys as hex text (parse, list, and the round trip between them).
  - `signed`: the answers to signing requests (base64, hex, hex halves).
  - `api`: `KeyStoreApiBoxTrait`, whose operations decode their request and name the
    one keystore call to make, and the encoders of decrypted data and of `null`.
- `app/`: the asynchronous box that awaits the nekoton keystore, parses the JSON
  inputs into nekoton types and serializes nekoton entries.
- `tests/`: concrete cases for every operation, error and law.
