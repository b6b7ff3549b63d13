# omk

Verified logic of a software KeyMint.

- `src/filter.rs` decides which callers are served.
- `src/att_mgr.rs` hands out the identifiers that a device attests for itself, and holds on to them
  once telephony has answered.
- `src/keymint/` builds the DICE chain behind remote key provisioning: `dice.rs` has measurements
  and certificate IDs, `chain.rs` says what a chain holds, and `rpc.rs` generates it.
- `src/cbor.rs`, `src/cose.rs` and `src/digest.rs` describe what `ciborium`, `coset`, `ring` and
  `hex` compute. What is trusted of those crates is stated there.
- `app/` puts the library behind the device traits of a KeyMint trusted application.

Functions named `law_…` state what holds of the library as a whole.
