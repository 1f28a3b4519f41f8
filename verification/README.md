# dtn7

A verified core of a delay-tolerant networking node (Bundle Protocol 7),
written in Verus.

- `src/bp`: primary and canonical blocks, endpoint identifiers, DTN time,
  block checksums and flag validation.
- `src/cla`: convergence layer agents; the TCPCLv4 message codec and
  segmentation (`tcpcl`), the minimal TCP framing of bundles as CBOR byte
  strings (`mtcp`), and the TCPCL session rules (`tcp`).
- `src/ipnd`: the IPND service block and beacons, and their display text.
- `src/node`: bundle packs and their retention constraints, the bundle
  store, peers, the peer table and static peer URLs, application agents,
  the decisions of bundle processing, and the steps of receiving and
  forwarding a bundle.
- `src/dtnd`: the external convergence layer registry, the external routing
  packets, the WebSocket session (text commands and binary frames), the
  REST interface's endpoint requests, and the guard of the web interface.
- `src/config.rs`, `src/client.rs`: the daemon's configuration and the
  addresses of the local web interface.
- `app/`: a command-line companion that does the I/O: HTTP requests to a
  node, the floating-point location service, and CBOR encodings through
  serde.

Every function in `src/` carries a contract that Verus proves; the few
calls into the standard library and outside crates (`url`, `crc`,
`chrono`, `serde_cbor`, `bp7`) sit behind small trusted wrappers whose contracts
are documented where they are declared.
