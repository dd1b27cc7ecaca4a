# rusty_a2a

A library for the Agent2Agent (A2A) protocol whose core is verified with
Verus.

## Layout

- `src/` — the verified library.
  - `error.rs`: the A2A error model and its JSON-RPC, HTTP and gRPC
    mappings, with the laws that tie them together (what a client rebuilds
    from what a server sends).
  - `types.rs`, `pb.rs`: the data model and its gRPC wire form.
  - `convert.rs`: field-by-field conversions between the two, specified as
    relations (`wire_*`, `read_*`); `round_trip.rs` proves what survives a
    trip over the wire and what does not.
  - `status.rs`: gRPC status codes and the error-to-status mapping.
  - `client.rs`: what the clients decide apart from I/O — service
    parameters, requests, URLs, the interface picked from an agent card,
    and how error bodies, statuses and streams are read.
  - `time.rs`, `json.rs`, `text.rs`: instants (through chrono), JSON values
    (through serde_json) and string helpers.
  - `server.rs`: the gRPC service shell.
- `tests/` — tests of the library on concrete values.
- `app/` — the I/O around it: JSON-RPC and REST clients over reqwest, serde
  copies of the data model, `Display` for the errors, and tonic, chrono and
  prost conversions (metadata through floating point stays here).
