# DumQ MQTT

An MQTT 3.1.1 / 5.0 library whose protocol logic is verified with Verus.

- `src/` is the verified library:
  - `types/`, `protocol/`: packets, messages, properties, QoS, reason codes,
    client options, packet identifiers;
  - `codec/`: the wire format. `codec/spec.rs` and the `*_out` / `*_dec`
    spec functions state byte for byte what is written and read;
    `codec/roundtrip.rs` proves that reading back an encoded packet gives
    the packet (`lemma_packet_roundtrip`);
  - `server/`: authentication, sessions and subscriptions, topic matching,
    retained messages, and what the broker answers to each packet;
  - `client/`: connection states, the client's bookkeeping
    (`ClientCore`), the packets it sends and how it answers those it
    receives;
  - `buffer.rs`, `text.rs`, `time.rs`, `error.rs`: the calls into `bytes`
    and `std` that the logic makes, each with the contract it relies on.
- `app/` is plain Rust around it: Tokio sockets for the client and the
  broker, logging set-up (`log4rs`, `env_logger`), message handler traits,
  and the error type's `Display` through `thiserror`.
- `tests/` exercises the library on concrete values.
