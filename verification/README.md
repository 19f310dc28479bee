# beevulyk_grpc_extensions

A gRPC client toolkit built on `tonic`, with its decision logic verified by Verus.

- `src/` is the verified library:
  - `error`: the read error type and its conversions.
  - `retry`: the retry budget and its laws.
  - `channel_holder`: the shared channel and the decisions of channel creation.
  - `channel_pool`: the ping loop as a state machine, with its laws.
  - `request_builder`: the unary request builders.
  - `client_settings`: what a generated client resolves from its parameters.
- `app/` runs the asynchronous parts on `tokio`: the lock around the channel, the
  connect loop, the background ping task, the retry loops of the request builders,
  and the user-facing traits.
- `tests/` exercises the library on concrete values.

Channel creation checks the URL with `tonic`'s own parse (`Channel::from_shared`).
A separate endpoint pre-check from the `beevulyk-rust-extensions` crate is not
performed: that crate is not available from the registry.
