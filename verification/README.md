# v_kafka

The verified core of a terminal Kafka client, written in Verus.

`src/` is the library; every function in it carries a contract that Verus
proves:

- `config` — cluster profiles, authentication settings and the librdkafka
  settings a cluster configuration produces.
- `kafka` — client settings, cached metadata, watermark and consumer-group
  offset tables, lag, offset resets, message display and Schema Registry
  requests.
- `decoder` — turning payloads into display text (plain text, JSON, the
  Confluent wire format).
- `app` and `events` — the application state, the cluster form, and what
  each key press does to them, as a step function from state and key to next
  state and action.
- `ui` — the arithmetic and text of the screens (layout, columns, badges).
- `text` — the string building blocks the rest is written with.

`app/` is the program around the library: the terminal, the event loop, the
Kafka and HTTP calls, and reading and writing the profile file.
