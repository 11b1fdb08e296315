# passkeys

Server-side WebAuthn passkey registration and authentication, verified with Verus.

- `src/` is the verified library:
  - `auth_data.rs` decodes authenticator data (flags, sign count, attested
    credential data, extensions) against the format's specification, and proves
    that decoding loses nothing.
  - `registration.rs` issues registration requests and checks the answers.
  - `authentication.rs` issues authentication requests and checks signed answers
    against registered credentials.
  - `shared.rs` holds the shared types, SHA-256 (from `sha2`) and the random
    challenge (from `rand`).
  - `cbor.rs` holds what the library takes from `ciborium` and `coset`.
- `app/` is the serde layer: the JSON and CBOR forms of requests, responses and
  credentials, the decoding of `clientDataJSON` and of the attestation object, and
  error types with `Display`.
- `tests/` exercises the library on concrete inputs, with real ECDSA signatures.
