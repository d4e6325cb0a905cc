# nexus_node

The decisions of a Nexus node, written in Verus: what a node elects, answers,
counts, accepts and refuses is stated in contracts and proved.

- `src/primitives`: addresses, digests, identifiers, hexadecimal text, byte
  layouts, and a table keyed by 32 bytes.
- `src/node`: committee elections, readiness, synchronisation of blocks,
  identities, keys and discovery of validators, snapshots, maintenance.
- `src/rpc`: errors, replies, limits and quotas, tool calls of agents,
  tracking of intents and transactions, the REST endpoints, subscriptions.
- `app`: HTTP, WebSocket, files, clocks and tasks around the library.
- `tests`: tests of the compiled library.

Statements about several functions stand as proof functions whose names begin
with `law_`.

Calls into `blake3`, `bcs`, `hex`, `http`, `libp2p` and `serde_json`, and the
system clock, are believed as their doc comments say. Signature schemes, the
reading of JSON into arguments, storage and the network are passed in. Times
that limits are measured by are counted in nanoseconds.
