# bamep

Endpoint identity, credential-chain and trusted-bootstrap logic for a
bare-metal provisioning server and its simulated agent, written as a Verus
library.

- `src/` is the library. Each public function states its result in
  `requires`/`ensures` over spec functions and views; the `law_*` proof
  functions state properties that span several functions. Calls into
  outside crates (base64, SHA-256, Ed25519, randomness, UUIDs, the clock)
  sit behind the trusted items in `src/primitives/`.
- `tests/` exercises the library on concrete values.
- `app/` is the runtime shell: repository ports, the SQLite adapter, the
  async application services, the TLS 1.3 WebSocket acceptor and the
  simulator's connection step. It makes no decision of its own.
