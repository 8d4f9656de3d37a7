# ak-platform

Platform support library for the authentik agent, written in Verus.

`src/` is the verified library: the wire formats spoken between the agent,
its system daemon and the SSH-agent tunnel (gRPC framing, the tunnel
extension's request and response encodings, the protobuf JSON field
mapping), the path and configuration tables, the credential cache and
in-memory credential store, and the decisions of the transports, the logger,
the keyring backends and the OAuth device flow. Calls into base64, sha2,
url (its form_urlencoded), p256, jsonwebtoken, uuid, chrono, serde_json, tonic
and the log facade stand behind a
few trusted wrappers in `src/encoding.rs`, `src/text.rs`, `src/dpop.rs`,
`src/grpc_support.rs` and `src/logging.rs`.

`app/` performs the I/O around it: reading the configuration file, the
Secret Service and in-memory stores, installing the logger, dialling and
listening on local sockets, the SSH agent tunnel, process lookup and the
HTTP side of the device flow.

`tests/` exercises the library on concrete values.
