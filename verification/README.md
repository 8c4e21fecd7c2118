# seetle

A WebCrypto-style key management library for hardware-backed keys, written
in Verus. The functions under `src/` carry contracts that Verus proves,
except the small wrappers around `ring`, the X25519 and HPKE crates and a
few `String` methods, marked `#[verifier::external_body]`, whose contracts
are trusted as the outside code's documented behaviour.

## Layout

- `src/types.rs`: keys, algorithms, bindings, metadata and errors.
- `src/debug.rs`: the `{:?}`-style texts of algorithms and errors.
- `src/storage.rs`, `src/file.rs`, `src/keyring.rs`, `src/tpm.rs`,
  `src/secure_env.rs`: the storage model (a map from keys to bytes), the
  in-memory and file stores, the keyring layer that seals values under a
  master key, and the pass-through layers.
- `src/crypto.rs`: the calls into `ring`, `x25519-dalek`,
  `curve25519-dalek` and `hpke`, each with the contract it is trusted for.
- `src/backends/`: the decisions of each backend (mock, keyring, Nordic
  PSA, secure environment, TPM, TROPIC01, xHD), taking what the device or
  store answered and giving what to do or return.
- `src/init.rs`, `src/config.rs`: the setup decisions and the settings.
- `src/tui.rs`: the terminal interface as a state machine: a key press
  gives the next state and an action to carry out.
- `app/`: the command-line program around the library: file system,
  keyring and terminal input/output, JSON records, and the async interface.
- `tests/`: tests of the library on concrete values.

The laws of the library are public proof functions named `law_*`.
